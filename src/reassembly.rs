//! Reassembly of a byte stream from received datagrams: exact-length reads
//! that may span several datagrams or end inside one.

use vstd::prelude::*;
use std::collections::VecDeque;

verus! {

/// The bytes of a queue of datagrams, front first.
pub open spec fn queued_bytes(ds: Seq<Vec<u8>>) -> Seq<u8>
    decreases ds.len(),
{
    if ds.len() == 0 {
        Seq::empty()
    } else {
        ds[0]@ + queued_bytes(ds.drop_first())
    }
}

/// The byte stream that a sequence of datagrams carries, in arrival order.
pub open spec fn flatten(ds: Seq<Seq<u8>>) -> Seq<u8>
    decreases ds.len(),
{
    if ds.len() == 0 {
        Seq::empty()
    } else {
        flatten(ds.drop_last()) + ds.last()
    }
}

/// Sum of a sequence of read lengths.
pub open spec fn total(ls: Seq<nat>) -> nat
    decreases ls.len(),
{
    if ls.len() == 0 {
        0
    } else {
        ls[0] + total(ls.drop_first())
    }
}

/// The concatenated results of exact-length reads of the given lengths, taken
/// one after the other from a queue that holds `pending`: each read takes
/// the first bytes of what is left.
pub open spec fn reads_from(pending: Seq<u8>, ls: Seq<nat>) -> Seq<u8>
    decreases ls.len(),
{
    if ls.len() == 0 {
        Seq::empty()
    } else {
        pending.take(ls[0] as int) + reads_from(pending.skip(ls[0] as int), ls.drop_first())
    }
}

proof fn lemma_queued_bytes_push(ds: Seq<Vec<u8>>, d: Vec<u8>)
    ensures
        queued_bytes(ds.push(d)) == queued_bytes(ds) + d@,
    decreases ds.len(),
{
    if ds.len() == 0 {
        assert(ds.push(d).drop_first() =~= Seq::<Vec<u8>>::empty());
        assert(queued_bytes(Seq::<Vec<u8>>::empty()) == Seq::<u8>::empty());
        assert(queued_bytes(ds.push(d)) =~= d@);
    } else {
        assert(ds.push(d).drop_first() =~= ds.drop_first().push(d));
        lemma_queued_bytes_push(ds.drop_first(), d);
        assert(queued_bytes(ds.push(d)) =~= queued_bytes(ds) + d@);
    }
}

/// An ordered queue of received datagrams plus the unread rest of the one
/// that the last read ended inside. Its view is the stream of bytes not yet
/// read, in arrival order.
pub struct ReassemblyQueue {
    leftover: Vec<u8>,
    datagrams: VecDeque<Vec<u8>>,
}

impl View for ReassemblyQueue {
    type V = Seq<u8>;

    closed spec fn view(&self) -> Seq<u8> {
        self.leftover@ + queued_bytes(self.datagrams@)
    }
}

/// Appends `src[from..to]` to `out`.
fn append_range(out: &mut Vec<u8>, src: &Vec<u8>, from: usize, to: usize)
    requires
        from <= to <= src@.len(),
    ensures
        final(out)@ == old(out)@ + src@.subrange(from as int, to as int),
{
    let mut i: usize = from;
    while i < to
        invariant
            from <= i <= to <= src@.len(),
            out@ == old(out)@ + src@.subrange(from as int, i as int),
        decreases to - i,
    {
        out.push(src[i]);
        assert(src@.subrange(from as int, i + 1) =~= src@.subrange(from as int, i as int).push(
            src@[i as int],
        ));
        i = i + 1;
    }
}

impl ReassemblyQueue {
    /// An empty queue.
    pub fn new() -> (r: Self)
        ensures
            r@ == Seq::<u8>::empty(),
    {
        let r = ReassemblyQueue { leftover: Vec::new(), datagrams: VecDeque::new() };
        assert(r@ =~= Seq::<u8>::empty());
        r
    }

    /// Number of unread bytes.
    pub closed spec fn spec_len(&self) -> nat {
        self@.len()
    }

    /// Queues one received datagram behind everything received before it.
    pub fn push(&mut self, datagram: Vec<u8>)
        ensures
            final(self)@ == old(self)@ + datagram@,
    {
        proof {
            lemma_queued_bytes_push(self.datagrams@, datagram);
        }
        self.datagrams.push_back(datagram);
        assert(self@ =~= old(self)@ + datagram@);
    }

    /// Whether at least `len` bytes are unread.
    pub fn has_at_least(&self, len: usize) -> (r: bool)
        ensures
            r == (len <= self@.len()),
    {
        let mut count: usize = self.leftover.len();
        if count >= len {
            return true;
        }
        let n = self.datagrams.len();
        let mut i: usize = 0;
        while i < n
            invariant
                n == self.datagrams@.len(),
                i <= n,
                count < len,
                self.leftover@.len() + queued_bytes(self.datagrams@.take(i as int)).len() == count,
            decreases n - i,
        {
            let d = &self.datagrams[i];
            proof {
                assert(self.datagrams@.take(i + 1) =~= self.datagrams@.take(i as int).push(*d));
                lemma_queued_bytes_push(self.datagrams@.take(i as int), *d);
            }
            if d.len() >= len - count {
                proof {
                    self.lemma_prefix_len(i + 1);
                }
                return true;
            }
            count = count + d.len();
            i = i + 1;
        }
        assert(self.datagrams@.take(n as int) =~= self.datagrams@);
        false
    }

    proof fn lemma_prefix_len(&self, k: int)
        requires
            0 <= k <= self.datagrams@.len(),
        ensures
            queued_bytes(self.datagrams@.take(k)).len() <= queued_bytes(self.datagrams@).len(),
        decreases self.datagrams@.len() - k,
    {
        let ds = self.datagrams@;
        if k < ds.len() {
            assert(ds.take(k + 1) =~= ds.take(k).push(ds[k]));
            lemma_queued_bytes_push(ds.take(k), ds[k]);
            self.lemma_prefix_len(k + 1);
        } else {
            assert(ds.take(k) =~= ds);
        }
    }

    /// Reads exactly `len` bytes: the first `len` unread bytes, drawn from the
    /// leftover and then from as many datagrams as it takes, with the unread
    /// rest of the last one kept as the new leftover. Where fewer than `len`
    /// bytes are unread, it reads nothing and returns `None`.
    pub fn read_exact(&mut self, len: usize) -> (r: Option<Vec<u8>>)
        ensures
            len <= old(self)@.len() ==> (r matches Some(b) && b@ == old(self)@.take(len as int)
                && final(self)@ == old(self)@.skip(len as int)),
            len > old(self)@.len() ==> r is None && final(self)@ == old(self)@,
    {
        if !self.has_at_least(len) {
            return None;
        }
        let ghost start = self@;
        let mut out: Vec<u8> = Vec::new();
        let have = self.leftover.len();
        let take = if len < have { len } else { have };
        append_range(&mut out, &self.leftover, 0, take);
        let mut rest: Vec<u8> = Vec::new();
        append_range(&mut rest, &self.leftover, take, have);
        self.leftover = rest;
        assert(out@ + self@ =~= start);
        while out.len() < len
            invariant
                out@ + self@ == start,
                out@.len() <= len <= start.len(),
                out@.len() < len ==> self.leftover@.len() == 0,
            decreases len - out@.len(), self.datagrams@.len(),
        {
            assert(self@ =~= queued_bytes(self.datagrams@));
            if self.datagrams.len() == 0 {
                assert(false);
            }
            let ghost ds = self.datagrams@;
            let d = match self.datagrams.pop_front() {
                Some(d) => d,
                None => Vec::new(),
            };
            assert(ds.drop_first() =~= self.datagrams@);
            let need = len - out.len();
            if d.len() <= need {
                append_range(&mut out, &d, 0, d.len());
                assert(d@.subrange(0, d@.len() as int) =~= d@);
                assert(out@ + self@ =~= start);
            } else {
                append_range(&mut out, &d, 0, need);
                let mut rest: Vec<u8> = Vec::new();
                append_range(&mut rest, &d, need, d.len());
                self.leftover = rest;
                assert(d@ =~= d@.subrange(0, need as int) + d@.subrange(need as int, d@.len() as int));
                assert(out@ + self@ =~= start);
            }
        }
        assert(out@ =~= start.take(len as int));
        assert(self@ =~= start.skip(len as int));
        Some(out)
    }
}

proof fn lemma_flatten_push(ds: Seq<Seq<u8>>, d: Seq<u8>)
    ensures
        flatten(ds.push(d)) == flatten(ds) + d,
{
    assert(ds.push(d).drop_last() =~= ds);
}

proof fn lemma_reads_cover(pending: Seq<u8>, ls: Seq<nat>)
    requires
        total(ls) == pending.len(),
    ensures
        reads_from(pending, ls) == pending,
    decreases ls.len(),
{
    if ls.len() == 0 {
        assert(pending =~= Seq::<u8>::empty());
    } else {
        lemma_reads_cover(pending.skip(ls[0] as int), ls.drop_first());
        assert(pending.take(ls[0] as int) + pending.skip(ls[0] as int) =~= pending);
    }
}

/// Reassembly is exact whatever the datagram boundaries: feeding the
/// datagrams `ds` one by one into an empty queue leaves it holding their
/// bytes in arrival order, and exact-length reads whose lengths sum to the
/// number of bytes sent give back precisely those bytes, in order.
pub proof fn lemma_reassembly_exact(ds: Seq<Seq<u8>>, ls: Seq<nat>)
    requires
        total(ls) == flatten(ds).len(),
    ensures
        forall|i: int|
            0 <= i < ds.len() ==> #[trigger] flatten(ds.take(i + 1)) == flatten(ds.take(i))
                + ds[i],
        flatten(ds.take(0)) == Seq::<u8>::empty(),
        reads_from(flatten(ds), ls) == flatten(ds),
{
    assert forall|i: int| 0 <= i < ds.len() implies #[trigger] flatten(ds.take(i + 1)) == flatten(
        ds.take(i),
    ) + ds[i] by {
        assert(ds.take(i + 1) =~= ds.take(i).push(ds[i]));
        lemma_flatten_push(ds.take(i), ds[i]);
    }
    assert(ds.take(0) =~= Seq::<Seq<u8>>::empty());
    lemma_reads_cover(flatten(ds), ls);
}

} // verus!
