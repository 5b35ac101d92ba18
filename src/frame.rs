//! Wire framing of the two direction pumps: raw chunks pass through
//! unchanged; compressed payloads travel as frames, a two-byte big-endian
//! length followed by that many bytes.

use vstd::prelude::*;

use crate::config::{Config, SampleFormat};

verus! {

/// Bytes of a frame's length prefix.
pub const FRAME_HEADER_LEN: usize = 2;

/// Largest payload a frame can carry.
pub const MAX_FRAME_PAYLOAD: usize = 65535;

#[derive(Clone, Copy, Debug, PartialEq, Eq, Structural)]
pub enum FrameError {
    /// The payload is longer than a length prefix can state.
    PayloadTooLarge,
}

/// Big-endian bytes of a length below 65536.
pub open spec fn be16(n: nat) -> Seq<u8> {
    seq![(n / 256) as u8, (n % 256) as u8]
}

/// The length that a big-endian prefix states.
pub open spec fn be16_value(hi: u8, lo: u8) -> nat {
    hi as nat * 256 + lo as nat
}

/// A frame: the payload's length, then the payload.
pub open spec fn frame_bytes(p: Seq<u8>) -> Seq<u8> {
    be16(p.len()) + p
}

/// What a record pump sends for one payload.
pub open spec fn packet_of(codec: bool, p: Seq<u8>) -> Seq<u8> {
    if codec {
        frame_bytes(p)
    } else {
        p
    }
}

/// The length a frame's prefix states.
pub fn frame_length(head: [u8; 2]) -> (r: u16)
    ensures
        r == be16_value(head[0], head[1]),
{
    (head[0] as u16) * 256 + (head[1] as u16)
}

/// Frames a payload: its length as two big-endian bytes, then the payload.
/// A payload longer than 65535 bytes cannot be framed.
pub fn encode_frame(payload: &[u8]) -> (r: Result<Vec<u8>, FrameError>)
    ensures
        payload@.len() <= MAX_FRAME_PAYLOAD <==> r is Ok,
        r matches Ok(v) ==> v@ == frame_bytes(payload@),
        r matches Err(e) ==> e == FrameError::PayloadTooLarge,
{
    let n = payload.len();
    if n > MAX_FRAME_PAYLOAD {
        return Err(FrameError::PayloadTooLarge);
    }
    let mut out: Vec<u8> = Vec::with_capacity(n + FRAME_HEADER_LEN);
    out.push((n / 256) as u8);
    out.push((n % 256) as u8);
    let mut i: usize = 0;
    while i < n
        invariant
            n == payload@.len() <= MAX_FRAME_PAYLOAD,
            i <= n,
            out@ == be16(n as nat) + payload@.take(i as int),
        decreases n - i,
    {
        out.push(payload[i]);
        assert(payload@.take(i + 1) =~= payload@.take(i as int).push(payload@[i as int]));
        i = i + 1;
    }
    assert(payload@.take(n as int) =~= payload@);
    Ok(out)
}

/// What a record pump sends for one payload: in codec mode a frame of the
/// encoded bytes, in raw mode the chunk itself.
pub fn record_packet(codec: bool, payload: &[u8]) -> (r: Result<Vec<u8>, FrameError>)
    ensures
        (!codec || payload@.len() <= MAX_FRAME_PAYLOAD) <==> r is Ok,
        r matches Ok(v) ==> v@ == packet_of(codec, payload@),
        r matches Err(e) ==> e == FrameError::PayloadTooLarge,
{
    if codec {
        encode_frame(payload)
    } else {
        let mut out: Vec<u8> = Vec::with_capacity(payload.len());
        let mut i: usize = 0;
        while i < payload.len()
            invariant
                i <= payload@.len(),
                out@ == payload@.take(i as int),
            decreases payload@.len() - i,
        {
            out.push(payload[i]);
            assert(payload@.take(i + 1) =~= payload@.take(i as int).push(payload@[i as int]));
            i = i + 1;
        }
        assert(payload@.take(payload@.len() as int) =~= payload@);
        Ok(out)
    }
}

/// Where a playback pump stands: its mode, its raw chunk size, and, in codec
/// mode, the length of the frame whose payload it waits for.
pub struct ReaderModel {
    pub codec: bool,
    pub chunk: nat,
    pub pending: Option<nat>,
}

/// Bytes the next exact-length read of a playback pump asks the peer for: a
/// raw chunk, a frame's prefix, or the payload whose length the prefix stated.
pub open spec fn wanted(m: ReaderModel) -> nat {
    if !m.codec {
        m.chunk
    } else {
        match m.pending {
            None => FRAME_HEADER_LEN as nat,
            Some(n) => n,
        }
    }
}

/// How a playback pump takes the bytes of one read: a raw chunk goes to the
/// device as it came; a frame's prefix sets the payload length to wait for;
/// a payload goes to the decoder, and the next read is a prefix again.
pub open spec fn accept_spec(m: ReaderModel, bytes: Seq<u8>) -> (ReaderModel, Option<Seq<u8>>) {
    if !m.codec {
        (m, Some(bytes))
    } else {
        match m.pending {
            None => (ReaderModel { pending: Some(be16_value(bytes[0], bytes[1])), ..m }, None),
            Some(_) => (ReaderModel { pending: None, ..m }, Some(bytes)),
        }
    }
}

/// What a playback pump does next.
#[derive(Clone, Copy, Debug, PartialEq, Eq, Structural)]
pub enum PlaybackStep {
    /// The session is terminating: leave the loop.
    Stop,
    /// Read exactly this many bytes from the peer.
    Read(usize),
}

/// The reading side of a playback pump: which read comes next, and what the
/// bytes of a read are.
pub struct PlaybackReader {
    codec: bool,
    chunk: usize,
    pending: Option<u16>,
}

impl View for PlaybackReader {
    type V = ReaderModel;

    closed spec fn view(&self) -> ReaderModel {
        ReaderModel {
            codec: self.codec,
            chunk: self.chunk as nat,
            pending: match self.pending {
                Some(n) => Some(n as nat),
                None => None,
            },
        }
    }
}

impl PlaybackReader {
    /// A reader at the start of the stream, in codec or raw mode; `chunk` is
    /// the raw chunk size.
    pub fn new(codec: bool, chunk: usize) -> (r: Self)
        ensures
            r@ == (ReaderModel { codec, chunk: chunk as nat, pending: None }),
    {
        PlaybackReader { codec, chunk, pending: None }
    }

    /// Bytes the next read asks for.
    pub fn wanted(&self) -> (r: usize)
        ensures
            r == wanted(self@),
    {
        if !self.codec {
            self.chunk
        } else {
            match self.pending {
                None => FRAME_HEADER_LEN,
                Some(n) => n as usize,
            }
        }
    }

    /// The next step: stop once the session terminates, else read what
    /// `wanted` says.
    pub fn next_step(&self, terminated: bool) -> (r: PlaybackStep)
        ensures
            terminated ==> r == PlaybackStep::Stop,
            !terminated ==> r == PlaybackStep::Read(wanted(self@) as usize),
    {
        if terminated {
            PlaybackStep::Stop
        } else {
            PlaybackStep::Read(self.wanted())
        }
    }

    /// Takes the bytes of one read, which are exactly as many as `wanted`
    /// asked for, and returns what is ready: raw audio for the device or an
    /// encoded payload for the decoder; nothing after a frame's prefix.
    pub fn accept(&mut self, bytes: Vec<u8>) -> (r: Option<Vec<u8>>)
        requires
            bytes@.len() == wanted(old(self)@),
        ensures
            (final(self)@, match r {
                Some(v) => Some(v@),
                None => None::<Seq<u8>>,
            }) == accept_spec(old(self)@, bytes@),
    {
        if !self.codec {
            Some(bytes)
        } else {
            match self.pending {
                None => {
                    let n = (bytes[0] as u16) * 256 + (bytes[1] as u16);
                    self.pending = Some(n);
                    None
                },
                Some(_) => {
                    self.pending = None;
                    Some(bytes)
                },
            }
        }
    }
}

/// Whether a decoded block of `len` bytes fits in the device's free space
/// (`capacity` less the `occupancy` already queued); a block that does not
/// fit is dropped rather than blocking the pump.
pub fn playback_admits(capacity: usize, occupancy: usize, len: usize) -> (r: bool)
    ensures
        r == (occupancy <= capacity && len <= capacity - occupancy),
{
    occupancy <= capacity && len <= capacity - occupancy
}

/// The two bytes of a 16-bit sample, least significant first.
pub open spec fn sample_bytes(s: i16) -> Seq<u8> {
    seq![((s as u16) % 256) as u8, ((s as u16) / 256) as u8]
}

/// The 16-bit sample whose bytes, least significant first, are `lo` and `hi`.
pub open spec fn sample_of(lo: u8, hi: u8) -> i16 {
    (lo as u16 + hi as u16 * 256) as u16 as i16
}

/// The bytes of a run of 16-bit samples.
pub open spec fn bytes_of_samples(s: Seq<i16>) -> Seq<u8>
    decreases s.len(),
{
    if s.len() == 0 {
        Seq::empty()
    } else {
        bytes_of_samples(s.drop_last()) + sample_bytes(s.last())
    }
}

/// The 16-bit samples of a byte buffer; an odd last byte belongs to no sample.
pub open spec fn samples_of_bytes(b: Seq<u8>) -> Seq<i16> {
    Seq::new(b.len() / 2, |i: int| sample_of(b[2 * i], b[2 * i + 1]))
}

proof fn lemma_bytes_of_samples_len(s: Seq<i16>)
    ensures
        bytes_of_samples(s).len() == 2 * s.len(),
    decreases s.len(),
{
    if s.len() > 0 {
        lemma_bytes_of_samples_len(s.drop_last());
    }
}

proof fn lemma_bytes_of_samples_index(s: Seq<i16>, i: int)
    requires
        0 <= i < s.len(),
    ensures
        bytes_of_samples(s)[2 * i] == sample_bytes(s[i])[0],
        bytes_of_samples(s)[2 * i + 1] == sample_bytes(s[i])[1],
    decreases s.len(),
{
    lemma_bytes_of_samples_len(s.drop_last());
    if i < s.len() - 1 {
        lemma_bytes_of_samples_index(s.drop_last(), i);
    }
}

proof fn lemma_sample_round_trip(lo: u8, hi: u8)
    ensures
        sample_bytes(sample_of(lo, hi)) == seq![lo, hi],
{
    let u: u16 = (lo as u16 + hi as u16 * 256) as u16;
    assert(((u as i16) as u16) == u) by (bit_vector);
    assert(u % 256 == lo as u16 && u / 256 == hi as u16);
    assert(sample_bytes(sample_of(lo, hi)) =~= seq![lo, hi]);
}

/// The bytes of the samples in `samples`, two for each, least significant
/// first: the same audio, viewed as bytes.
pub fn samples_to_bytes(samples: &[i16]) -> (r: Vec<u8>)
    requires
        2 * samples@.len() <= usize::MAX,
    ensures
        r@ == bytes_of_samples(samples@),
{
    let mut out: Vec<u8> = Vec::with_capacity(2 * samples.len());
    let mut i: usize = 0;
    while i < samples.len()
        invariant
            i <= samples@.len(),
            out@ == bytes_of_samples(samples@.take(i as int)),
        decreases samples@.len() - i,
    {
        let u: u16 = #[verifier::truncate] (samples[i] as u16);
        out.push((u % 256) as u8);
        out.push((u / 256) as u8);
        assert(samples@.take(i + 1).drop_last() =~= samples@.take(i as int));
        assert(out@ =~= bytes_of_samples(samples@.take(i + 1)));
        i = i + 1;
    }
    assert(samples@.take(samples@.len() as int) =~= samples@);
    out
}

/// The 16-bit samples held by `bytes`, two bytes each, least significant
/// first; a trailing odd byte is not read.
pub fn bytes_to_samples(bytes: &[u8]) -> (r: Vec<i16>)
    ensures
        r@ == samples_of_bytes(bytes@),
{
    let len = bytes.len();
    let n = len / 2;
    let mut out: Vec<i16> = Vec::with_capacity(n);
    let mut i: usize = 0;
    while i < n
        invariant
            len == bytes@.len(),
            n == len / 2,
            i <= n,
            out@ =~= samples_of_bytes(bytes@).take(i as int),
        decreases n - i,
    {
        assert(i + i + 1 < bytes@.len()) by (nonlinear_arith)
            requires
                i < n,
                n == bytes@.len() / 2,
        ;
        let j: usize = i + i;
        let lo = bytes[j];
        let hi = bytes[j + 1];
        let u: u16 = (lo as u16) + (hi as u16) * 256;
        out.push(#[verifier::truncate] (u as i16));
        i = i + 1;
    }
    out
}

/// Raw mode moves chunks unchanged: what a record pump sends for a chunk is
/// the chunk, a raw playback reader of that chunk size hands it to the device
/// as read, and where the stream carries 16-bit samples, viewing a chunk of
/// whole frames as samples and back gives the same bytes.
pub proof fn lemma_raw_round_trip(c: Config, b: Seq<u8>)
    requires
        c.spec_frame_size() > 0,
        b.len() % c.spec_frame_size() == 0,
    ensures
        packet_of(false, b) == b,
        wanted(ReaderModel { codec: false, chunk: b.len(), pending: None }) == b.len(),
        accept_spec(ReaderModel { codec: false, chunk: b.len(), pending: None }, packet_of(false, b))
            == (ReaderModel { codec: false, chunk: b.len(), pending: None }, Some(b)),
        c.sample_format == SampleFormat::S16 ==> bytes_of_samples(samples_of_bytes(b)) == b,
{
    if c.sample_format == SampleFormat::S16 {
        let f = c.spec_frame_size();
        let ch = c.channels as nat;
        assert(f == ch * 2);
        assert(b.len() % 2 == 0) by (nonlinear_arith)
            requires
                b.len() % f == 0,
                f == ch * 2,
                f > 0,
        {
            assert(b.len() == f * (b.len() / f) + b.len() % f);
            assert(b.len() == 2 * (ch * (b.len() / f)));
        }
        let s = samples_of_bytes(b);
        lemma_bytes_of_samples_len(s);
        assert forall|j: int| 0 <= j < b.len() implies bytes_of_samples(s)[j] == b[j] by {
            let i = j / 2;
            lemma_bytes_of_samples_index(s, i);
            lemma_sample_round_trip(b[2 * i], b[2 * i + 1]);
        }
        assert(bytes_of_samples(s) =~= b);
    }
}

/// A frame read back through a codec-mode playback reader gives the payload
/// and its length: the reader first asks for the two-byte prefix, then for
/// exactly as many bytes as the payload has, returns the payload, and waits
/// for the next prefix.
pub proof fn lemma_frame_round_trip(chunk: nat, p: Seq<u8>)
    requires
        p.len() <= MAX_FRAME_PAYLOAD,
    ensures
        ({
            let m0 = ReaderModel { codec: true, chunk, pending: None };
            let f = packet_of(true, p);
            let first = accept_spec(m0, f.take(FRAME_HEADER_LEN as int));
            let second = accept_spec(first.0, f.skip(FRAME_HEADER_LEN as int));
            &&& f.len() == p.len() + FRAME_HEADER_LEN
            &&& wanted(m0) == FRAME_HEADER_LEN
            &&& first.1 is None
            &&& first.0.pending == Some(p.len())
            &&& wanted(first.0) == p.len()
            &&& second.1 == Some(p)
            &&& second.0 == m0
        }),
{
    let f = packet_of(true, p);
    assert(f.skip(2) =~= p);
    assert(be16_value(f[0], f[1]) == p.len());
}

} // verus!
