//! Deciding, from the two capability bytes exchanged at connection time,
//! which direction pumps a session runs.

use vstd::prelude::*;

use crate::stream::{codec_bit, sink_bit, source_bit, StreamFlags, StreamType};

verus! {

/// Audio flows from `sender` to `receiver` exactly when the sender can source
/// audio and the receiver can sink it.
pub open spec fn flows(sender: u8, receiver: u8) -> bool {
    source_bit(sender) && sink_bit(receiver)
}

/// The pumps one endpoint runs after the handshake. `record` moves audio from
/// the local device to the peer, `playback` from the peer to the local
/// device; `codec` says whether both directions carry compressed frames.
#[derive(Clone, Copy, Debug, PartialEq, Eq, Structural)]
pub struct SessionPlan {
    pub record: bool,
    pub playback: bool,
    pub codec: bool,
}

/// The plan of the endpoint whose capability byte is `local` when the peer
/// advertised `peer`; `codec_byte` is the client's byte, which alone carries
/// the codec request.
pub open spec fn plan_of(local: u8, peer: u8, codec_byte: u8) -> SessionPlan {
    SessionPlan {
        record: flows(local, peer),
        playback: flows(peer, local),
        codec: codec_bit(codec_byte),
    }
}

/// Number of pumps a plan starts.
pub open spec fn pump_count_of(p: SessionPlan) -> nat {
    (if p.record { 1nat } else { 0nat }) + (if p.playback { 1nat } else { 0nat })
}

impl SessionPlan {
    /// Number of pumps this plan starts: zero when neither side can send to
    /// the other, in which case the session closes right after the handshake.
    pub fn pump_count(&self) -> (r: usize)
        ensures
            r == pump_count_of(*self),
    {
        let mut n: usize = 0;
        if self.record {
            n = n + 1;
        }
        if self.playback {
            n = n + 1;
        }
        n
    }
}

/// Whether audio flows from an endpoint of type `sender` to one of type
/// `receiver`.
pub fn direction_enabled(sender: StreamType, receiver: StreamType) -> (r: bool)
    ensures
        r == flows(sender@, receiver@),
{
    sender.is_source() && receiver.is_sink()
}

/// The client's plan, from the flags it sent and the type the server
/// advertised.
pub fn client_plan(client: StreamFlags, server: StreamType) -> (p: SessionPlan)
    ensures
        p == plan_of(client@, server@, client@),
{
    let local = client.stream_type();
    SessionPlan {
        record: direction_enabled(local, server),
        playback: direction_enabled(server, local),
        codec: client.opus_enabled(),
    }
}

/// The server's plan, from the type it advertised and the flags the client
/// sent.
pub fn server_plan(server: StreamType, client: StreamFlags) -> (p: SessionPlan)
    ensures
        p == plan_of(server@, client@, client@),
{
    let peer = client.stream_type();
    SessionPlan {
        record: direction_enabled(server, peer),
        playback: direction_enabled(peer, server),
        codec: client.opus_enabled(),
    }
}

/// Negotiation does not depend on which side evaluates it: the client records
/// exactly when the server plays back, and the other way round, each
/// direction runs exactly when its sender sources and its receiver sinks,
/// and both sides agree on the codec.
pub proof fn lemma_negotiation_symmetric(client: u8, server: u8)
    ensures
        plan_of(client, server, client).record == plan_of(server, client, client).playback,
        plan_of(client, server, client).playback == plan_of(server, client, client).record,
        plan_of(client, server, client).record == (source_bit(client) && sink_bit(server)),
        plan_of(client, server, client).playback == (source_bit(server) && sink_bit(client)),
        plan_of(client, server, client).codec == plan_of(server, client, client).codec,
        pump_count_of(plan_of(client, server, client)) == pump_count_of(
            plan_of(server, client, client),
        ),
{
}

} // verus!
