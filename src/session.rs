//! The decisions of a session's pumps and of the session that runs them:
//! when a record pump pulls, waits or stops, and how one shared termination
//! flag brings every pump of a session down.

use vstd::prelude::*;

use crate::frame::{wanted, PlaybackStep, ReaderModel};
use crate::negotiate::{pump_count_of, SessionPlan};

verus! {

/// What a record pump does next.
#[derive(Clone, Copy, Debug, PartialEq, Eq, Structural)]
pub enum RecordStep {
    /// The session is terminating: leave the loop.
    Stop,
    /// A whole chunk is buffered: read it from the device and send it.
    Pull,
    /// Less than a chunk is buffered: sleep for one buffer duration, then poll
    /// again.
    Wait,
}

pub open spec fn record_step_spec(terminated: bool, occupancy: nat, chunk: nat) -> RecordStep {
    if terminated {
        RecordStep::Stop
    } else if occupancy >= chunk {
        RecordStep::Pull
    } else {
        RecordStep::Wait
    }
}

pub open spec fn playback_step_spec(terminated: bool, m: ReaderModel) -> PlaybackStep {
    if terminated {
        PlaybackStep::Stop
    } else {
        PlaybackStep::Read(wanted(m) as usize)
    }
}

/// The next step of a record pump, from the termination flag, the bytes the
/// capture device holds, and the chunk size.
pub fn record_step(terminated: bool, occupancy: usize, chunk: usize) -> (r: RecordStep)
    ensures
        r == record_step_spec(terminated, occupancy as nat, chunk as nat),
{
    if terminated {
        RecordStep::Stop
    } else if occupancy >= chunk {
        RecordStep::Pull
    } else {
        RecordStep::Wait
    }
}

/// How far a session has come: how many pumps it started, how many have
/// finished, and whether its termination flag is set.
pub struct SessionState {
    pub pumps: nat,
    pub finished: nat,
    pub terminated: bool,
}

/// A session after one of its pumps has finished: the flag is set, so that
/// the other pump leaves its loop too.
pub open spec fn finish_spec(s: SessionState) -> SessionState {
    SessionState { finished: s.finished + 1, terminated: true, ..s }
}

/// A session is stopped once every pump it started has finished.
pub open spec fn stopped_spec(s: SessionState) -> bool {
    s.finished == s.pumps
}

/// The coordination state of one session.
pub struct Session {
    pumps: usize,
    finished: usize,
    terminated: bool,
}

impl View for Session {
    type V = SessionState;

    closed spec fn view(&self) -> SessionState {
        SessionState {
            pumps: self.pumps as nat,
            finished: self.finished as nat,
            terminated: self.terminated,
        }
    }
}

impl Session {
    /// A session that runs the pumps of `plan`, none finished yet.
    pub fn new(plan: &SessionPlan) -> (r: Self)
        ensures
            r@ == (SessionState { pumps: pump_count_of(*plan), finished: 0, terminated: false }),
    {
        Session { pumps: plan.pump_count(), finished: 0, terminated: false }
    }

    pub fn is_terminated(&self) -> (r: bool)
        ensures
            r == self@.terminated,
    {
        self.terminated
    }

    /// Sets the termination flag from outside: an interrupt, or the peer
    /// closing the connection.
    pub fn terminate(&mut self)
        ensures
            final(self)@ == (SessionState { terminated: true, ..old(self)@ }),
    {
        self.terminated = true;
    }

    /// Records that one pump has finished, for whatever reason; the flag is
    /// set so that every other pump stops too.
    pub fn pump_finished(&mut self)
        requires
            old(self)@.finished < old(self)@.pumps,
        ensures
            final(self)@ == finish_spec(old(self)@),
    {
        self.finished = self.finished + 1;
        self.terminated = true;
    }

    /// Whether every pump of the session has finished.
    pub fn is_stopped(&self) -> (r: bool)
        ensures
            r == stopped_spec(self@),
    {
        self.finished == self.pumps
    }
}

/// Termination reaches every pump: once the flag is set, the next step of
/// any record pump and of any playback pump is to stop, whatever the device
/// holds and wherever the reader stands; the flag is set as soon as one pump
/// finishes; and a session with a pump still running is not stopped.
pub proof fn lemma_termination_propagates(
    s: SessionState,
    occupancy: nat,
    chunk: nat,
    m: ReaderModel,
)
    requires
        s.finished < s.pumps,
    ensures
        record_step_spec(true, occupancy, chunk) == RecordStep::Stop,
        playback_step_spec(true, m) == PlaybackStep::Stop,
        finish_spec(s).terminated,
        record_step_spec(finish_spec(s).terminated, occupancy, chunk) == RecordStep::Stop,
        !stopped_spec(s),
        stopped_spec(finish_spec(s)) <==> s.finished + 1 == s.pumps,
{
}

} // verus!
