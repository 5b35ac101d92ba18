//! The capability byte each endpoint advertises, and the running state of a
//! device stream.

use vstd::prelude::*;

use crate::errors::Error;
use vstd::string::StrSliceExecFns;

verus! {

/// Whether the source bit (bit 0) of a capability byte is set.
pub open spec fn source_bit(b: u8) -> bool {
    b & 1u8 != 0
}

/// Whether the sink bit (bit 1) of a capability byte is set.
pub open spec fn sink_bit(b: u8) -> bool {
    b & 2u8 != 0
}

/// Whether the codec bit (bit 2) of a capability byte is set.
pub open spec fn codec_bit(b: u8) -> bool {
    b & 4u8 != 0
}

/// The byte that advertises the given source and sink capabilities.
pub open spec fn type_byte(source: bool, sink: bool) -> u8 {
    (if source { 1u8 } else { 0u8 }) | (if sink { 2u8 } else { 0u8 })
}

/// What an endpoint can do: offer audio (source), render audio (sink), or
/// both. Any byte decodes; bits other than the two defined ones are ignored.
#[derive(Clone, Copy, Debug)]
pub struct StreamType(u8);

impl View for StreamType {
    type V = u8;

    closed spec fn view(&self) -> u8 {
        self.0
    }
}

impl StreamType {
    pub fn new(source: bool, sink: bool) -> (r: Self)
        ensures
            r@ == type_byte(source, sink),
            source_bit(r@) == source,
            sink_bit(r@) == sink,
            !codec_bit(r@),
    {
        let s: u8 = if source { 1 } else { 0 };
        let k: u8 = if sink { 2 } else { 0 };
        let value: u8 = s | k;
        assert((s == 0u8 || s == 1u8) && (k == 0u8 || k == 2u8) ==> ((s | k) & 1u8 != 0) == (s
            == 1u8) && ((s | k) & 2u8 != 0) == (k == 2u8) && (s | k) & 4u8 == 0u8) by (bit_vector);
        StreamType(value)
    }

    /// Builds the stream type that a received byte advertises.
    pub fn from_byte(b: u8) -> (r: Self)
        ensures
            r@ == b,
    {
        StreamType(b)
    }

    #[inline]
    pub fn is_source(self) -> (r: bool)
        ensures
            r == source_bit(self@),
    {
        self.0 & 1 != 0
    }

    #[inline]
    pub fn is_sink(self) -> (r: bool)
        ensures
            r == sink_bit(self@),
    {
        self.0 & 2 != 0
    }

    /// The byte sent on the wire.
    #[inline]
    pub fn to_bytes(self) -> (r: [u8; 1])
        ensures
            r@ == seq![self@],
    {
        let r = [self.0];
        assert(r@ =~= seq![self@]);
        r
    }
}

impl From<[u8; 1]> for StreamType {
    fn from(value: [u8; 1]) -> Self {
        StreamType(value[0])
    }
}

impl vstd::std_specs::convert::FromSpecImpl<[u8; 1]> for StreamType {
    open spec fn obeys_from_spec() -> bool {
        true
    }

    closed spec fn from_spec(v: [u8; 1]) -> StreamType {
        StreamType(v[0])
    }
}

/// The byte a client sends: its stream type plus the codec bit (bit 2), set
/// when it asks for compressed frames.
#[derive(Clone, Copy, Debug)]
pub struct StreamFlags(u8);

impl View for StreamFlags {
    type V = u8;

    closed spec fn view(&self) -> u8 {
        self.0
    }
}

impl StreamFlags {
    pub fn new(stream_type: StreamType, opus_enabled: bool) -> (r: Self)
        ensures
            r@ == (if opus_enabled { stream_type@ | 4u8 } else { stream_type@ }),
            source_bit(r@) == source_bit(stream_type@),
            sink_bit(r@) == sink_bit(stream_type@),
            codec_bit(r@) == (opus_enabled || codec_bit(stream_type@)),
    {
        let t = stream_type.0;
        assert((t | 4u8) & 1u8 == t & 1u8 && (t | 4u8) & 2u8 == t & 2u8 && (t | 4u8) & 4u8 != 0u8)
            by (bit_vector);
        if opus_enabled {
            StreamFlags(t | 4)
        } else {
            StreamFlags(t)
        }
    }

    /// Builds the flags that a received byte advertises.
    pub fn from_byte(b: u8) -> (r: Self)
        ensures
            r@ == b,
    {
        StreamFlags(b)
    }

    /// The stream type these flags advertise; the codec bit stays with the
    /// byte, where the stream type ignores it.
    #[inline]
    pub fn stream_type(self) -> (r: StreamType)
        ensures
            r@ == self@,
    {
        StreamType(self.0)
    }

    #[inline]
    pub fn opus_enabled(self) -> (r: bool)
        ensures
            r == codec_bit(self@),
    {
        self.0 & 4 != 0
    }

    /// The byte sent on the wire.
    #[inline]
    pub fn to_bytes(self) -> (r: [u8; 1])
        ensures
            r@ == seq![self@],
    {
        let r = [self.0];
        assert(r@ =~= seq![self@]);
        r
    }
}

impl Default for StreamFlags {
    /// No capability and no codec.
    fn default() -> (r: Self)
        ensures
            r@ == 0u8,
    {
        StreamFlags(0)
    }
}

impl From<[u8; 1]> for StreamFlags {
    fn from(value: [u8; 1]) -> Self {
        StreamFlags(value[0])
    }
}

impl vstd::std_specs::convert::FromSpecImpl<[u8; 1]> for StreamFlags {
    open spec fn obeys_from_spec() -> bool {
        true
    }

    closed spec fn from_spec(v: [u8; 1]) -> StreamFlags {
        StreamFlags(v[0])
    }
}

/// The state that a device stream keeps on this side of the device layer:
/// the name of the device it opened and whether it still runs.
pub struct BaseStream {
    devname: Option<String>,
    running: bool,
}

impl BaseStream {
    /// Whether the device stream is still running.
    pub closed spec fn spec_running(&self) -> bool {
        self.running
    }

    /// The name of the opened device, if the device layer gave one.
    pub closed spec fn spec_device_name(&self) -> Option<Seq<char>> {
        match self.devname {
            Some(m) => Some(m@),
            None => None,
        }
    }

    /// What a stop leaves behind and reports, where `device` is what the
    /// device layer's own stop would report. The device is asked only while
    /// the stream runs; a stopped stream reports success at once. A failed
    /// stop leaves the stream running, so that it can be stopped again.
    pub open spec fn stop_outcome(running: bool, device: Result<(), Error>) -> (bool, Result<(), Error>) {
        if running {
            (device is Err, device)
        } else {
            (false, Ok(()))
        }
    }

    /// State of a stream that the device layer has just started.
    pub fn new(devname: Option<String>) -> (r: Self)
        ensures
            r.spec_running(),
            r.spec_device_name() == (match devname {
                Some(m) => Some(m@),
                None => None::<Seq<char>>,
            }),
    {
        BaseStream { devname, running: true }
    }

    pub fn is_running(&self) -> (r: bool)
        ensures
            r == self.spec_running(),
    {
        self.running
    }

    pub fn device_name(&self) -> (r: Option<&str>)
        ensures
            r matches Some(m) ==> self.spec_device_name() == Some(m@),
            r is None ==> self.spec_device_name() is None,
    {
        match &self.devname {
            Some(m) => Some(m.as_str()),
            None => None,
        }
    }

    /// Stops the stream. `stop_device` performs the device layer's own stop;
    /// it is called only while the stream runs, so stopping twice is harmless.
    pub fn stop<F: FnOnce() -> Result<(), Error>>(&mut self, stop_device: F) -> (r: Result<(), Error>)
        requires
            old(self).spec_running() ==> stop_device.requires(()),
        ensures
            old(self).spec_running() ==> stop_device.ensures((), r),
            (final(self).spec_running(), r) == BaseStream::stop_outcome(old(self).spec_running(), r),
            final(self).spec_device_name() == old(self).spec_device_name(),
    {
        if self.running {
            let r = stop_device();
            if r.is_ok() {
                self.running = false;
            }
            r
        } else {
            Ok(())
        }
    }
}

/// Stopping twice in a row: once a stop has reported success the stream no
/// longer runs, so a second stop reports success without asking the device,
/// and a running stream asks the device exactly once over both calls.
pub proof fn lemma_stop_idempotent(running: bool, first: Result<(), Error>, second: Result<(), Error>)
    requires
        BaseStream::stop_outcome(running, first).1 is Ok,
    ensures
        !BaseStream::stop_outcome(running, first).0,
        BaseStream::stop_outcome(BaseStream::stop_outcome(running, first).0, second) == (false, Ok::<(), Error>(())),
        (if running { 1int } else { 0int }) + (if BaseStream::stop_outcome(running, first).0 { 1int } else { 0int }) == (if running { 1int } else { 0int }),
{
}

/// The device name that switches a direction off.
pub open spec fn is_null_name(name: Seq<char>) -> bool {
    name == seq!['n', 'u', 'l', 'l']
}

/// Whether an endpoint offers the direction that uses the device named
/// `name`: always when no name is given (the default device), and unless
/// the name is `null`.
pub fn device_enabled(name: Option<&str>) -> (r: bool)
    ensures
        r == match name {
            None => true,
            Some(s) => !is_null_name(s@),
        },
{
    match name {
        None => true,
        Some(s) => {
            if s.unicode_len() != 4 {
                true
            } else {
                let matches = s.get_char(0) == 'n' && s.get_char(1) == 'u' && s.get_char(2) == 'l'
                    && s.get_char(3) == 'l';
                assert(matches ==> s@ =~= seq!['n', 'u', 'l', 'l']);
                !matches
            }
        },
    }
}

} // verus!
