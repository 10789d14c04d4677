//! Line-buffered tee with a bounded tail.
//!
//! A `Tee` receives the bytes of a stream chunk by chunk.  It hands back, on
//! each push, the bytes that may be written to the sink now (everything up to
//! and including the last line terminator seen so far), and it maintains the
//! last `cap` bytes of the whole stream as a tail for the terminal report.

use vstd::prelude::*;
use vstd::slice::{slice_subrange, slice_to_vec};

verus! {

/// Bytes kept per stream for the terminal report.
pub const TAIL_CAP: usize = 40000;

/// Bytes read from the source per chunk.
pub const READ_CHUNK: usize = 16384;

/// A byte ends a line when it is `\n` or `\r`.
pub open spec fn is_line_end(b: u8) -> bool {
    b == 10 || b == 13
}

/// Length of the longest prefix of `s` that ends with a line terminator
/// (0 when `s` holds no terminator).
pub open spec fn flush_len(s: Seq<u8>) -> int
    decreases s.len(),
{
    if s.len() == 0 {
        0
    } else if is_line_end(s.last()) {
        s.len() as int
    } else {
        flush_len(s.drop_last())
    }
}

/// The flush point lies inside `s`, bytes at or after it are not line
/// terminators, and a positive flush point sits right after one.
pub proof fn lemma_flush_boundary(s: Seq<u8>)
    ensures
        0 <= flush_len(s) <= s.len(),
        forall|i: int| flush_len(s) <= i < s.len() ==> !is_line_end(#[trigger] s[i]),
        flush_len(s) > 0 ==> is_line_end(s[flush_len(s) - 1]),
    decreases s.len(),
{
    if s.len() > 0 && !is_line_end(s.last()) {
        lemma_flush_boundary(s.drop_last());
        assert forall|i: int| flush_len(s) <= i < s.len() implies !is_line_end(#[trigger] s[i]) by {
            if i < s.len() - 1 {
                assert(s.drop_last()[i] == s[i]);
            }
        }
    }
}

/// Appending `t` moves the flush point to the last terminator of `t` when `t`
/// holds one; otherwise the flush point of `s` stands.
pub proof fn lemma_flush_len_concat(s: Seq<u8>, t: Seq<u8>)
    ensures
        flush_len(t) > 0 ==> flush_len(s + t) == s.len() + flush_len(t),
        flush_len(t) == 0 ==> flush_len(s + t) == flush_len(s),
    decreases t.len(),
{
    if t.len() == 0 {
        assert(s + t =~= s);
    } else if is_line_end(t.last()) {
        assert((s + t).last() == t.last());
    } else {
        assert((s + t).drop_last() =~= s + t.drop_last());
        lemma_flush_len_concat(s, t.drop_last());
    }
}

/// Returns the prefix of `buf` up to and including the last line terminator;
/// empty when `buf` holds none.
pub fn trim_trailing(buf: &[u8]) -> (r: &[u8])
    ensures
        r@ == buf@.take(flush_len(buf@)),
{
    let mut i: usize = buf.len();
    proof {
        assert(buf@.take(i as int) =~= buf@);
    }
    while i > 0 && !(buf[i - 1] == 10 || buf[i - 1] == 13)
        invariant
            0 <= i <= buf@.len(),
            flush_len(buf@) == flush_len(buf@.take(i as int)),
            forall|j: int| i <= j < buf@.len() ==> !is_line_end(#[trigger] buf@[j]),
        decreases i,
    {
        proof {
            assert(buf@.take(i as int).last() == buf@[i - 1]);
            assert(buf@.take(i as int).drop_last() =~= buf@.take(i - 1));
        }
        i = i - 1;
    }
    proof {
        if i > 0 {
            assert(buf@.take(i as int).last() == buf@[i - 1]);
        }
        assert(flush_len(buf@.take(i as int)) == i as int);
    }
    slice_subrange(buf, 0, i)
}

/// The last `min(cap, |s|)` bytes of `s`, in order.
pub open spec fn tail_spec(s: Seq<u8>, cap: int) -> Seq<u8> {
    if s.len() <= cap {
        s
    } else {
        s.skip(s.len() - cap)
    }
}

/// Streams a byte source to a sink, line-buffered, keeping a bounded tail.
///
/// Feed the source with `push`, hand each returned chunk to the sink, and
/// close with `finish`, which returns the unflushed remainder for the sink
/// together with the retained tail.
pub struct Tee {
    cap: usize,
    tail: Vec<u8>,
    pending: Vec<u8>,
    fed: Ghost<Seq<u8>>,
}

impl Tee {
    /// All bytes fed so far.
    pub closed spec fn fed(self) -> Seq<u8> {
        self.fed@
    }

    /// The tail bound this tee was made with.
    pub closed spec fn cap(self) -> int {
        self.cap as int
    }

    /// All bytes handed out for the sink so far: the prefix of the fed bytes
    /// up to and including the last line terminator.
    pub open spec fn written(self) -> Seq<u8> {
        self.fed().take(flush_len(self.fed()))
    }

    pub closed spec fn wf(self) -> bool {
        &&& self.pending@ == self.fed().skip(flush_len(self.fed()))
        &&& self.tail@ == tail_spec(self.fed(), self.cap as int)
    }

    pub fn new(cap: usize) -> (t: Tee)
        ensures
            t.wf(),
            t.cap() == cap,
            t.fed() == Seq::<u8>::empty(),
    {
        let t = Tee { cap, tail: Vec::new(), pending: Vec::new(), fed: Ghost(Seq::empty()) };
        proof {
            assert(t.fed().skip(0) =~= Seq::<u8>::empty());
        }
        t
    }

    /// Feeds one chunk; the returned bytes go to the sink now.  The sink never
    /// gets bytes past the last line terminator fed so far.
    pub fn push(&mut self, chunk: &[u8]) -> (w: Vec<u8>)
        requires
            old(self).wf(),
        ensures
            final(self).wf(),
            final(self).cap() == old(self).cap(),
            final(self).fed() == old(self).fed() + chunk@,
            final(self).written() == old(self).written() + w@,
    {
        let ghost fed0 = self.fed@;
        let ghost f0 = flush_len(fed0);
        proof {
            lemma_flush_boundary(fed0);
        }
        // Retain the bounded tail.
        let mut tail_add = slice_to_vec(chunk);
        self.tail.append(&mut tail_add);
        if self.tail.len() > self.cap {
            let n = self.tail.len();
            let excess = n - self.cap;
            let kept = slice_to_vec(slice_subrange(self.tail.as_slice(), excess, n));
            self.tail = kept;
        }
        // Accumulate, then flush up to the last line terminator.
        let mut pending_add = slice_to_vec(chunk);
        self.pending.append(&mut pending_add);
        self.fed = Ghost(fed0 + chunk@);
        let ghost fed1 = self.fed@;
        proof {
            let s = fed0.take(f0);
            let t = self.pending@;
            assert(fed1 =~= s + t);
            lemma_flush_boundary(t);
            lemma_flush_len_concat(s, t);
            if f0 > 0 {
                assert(s.last() == fed0[f0 - 1]);
            }
            assert(s.len() == f0);
            assert(flush_len(s) == f0);
            if flush_len(t) > 0 {
                assert(flush_len(s + t) == s.len() + flush_len(t));
            } else {
                assert(flush_len(s + t) == flush_len(s));
            }
            assert(flush_len(s + t) == f0 + flush_len(t));
            assert(flush_len(fed1) == flush_len(s + t));
            assert(flush_len(fed1) == f0 + flush_len(self.pending@));
            lemma_flush_boundary(self.pending@);
            // The retained tail is the last min(cap, |fed1|) bytes.
            let m = if fed1.len() <= self.cap { fed1.len() as int } else { self.cap as int };
            assert(self.tail@ =~= fed1.skip(fed1.len() - self.tail@.len()));
            assert(self.tail@.skip(self.tail@.len() - m) =~= fed1.skip(fed1.len() - m));
            assert(self.tail@ =~= tail_spec(fed1, self.cap as int));
        }
        let ghost p1 = self.pending@;
        let ghost k = flush_len(p1);
        let flushed = trim_trailing(self.pending.as_slice());
        let w = slice_to_vec(flushed);
        let n_flushed = w.len();
        let np = self.pending.len();
        let rest = slice_to_vec(slice_subrange(self.pending.as_slice(), n_flushed, np));
        self.pending = rest;
        proof {
            assert(self.pending@ =~= fed1.skip(flush_len(fed1)));
            assert(fed1.take(flush_len(fed1)) =~= fed0.take(f0) + w@);
        }
        w
    }

    /// Closes the stream: returns the unflushed remainder (it goes to the sink,
    /// so that the sink has received every fed byte) and the retained tail.
    pub fn finish(self) -> (r: (Vec<u8>, Vec<u8>))
        requires
            self.wf(),
        ensures
            self.written() + r.0@ == self.fed(),
            r.1@ == tail_spec(self.fed(), self.cap()),
    {
        proof {
            lemma_flush_boundary(self.fed());
            assert(self.written() + self.fed().skip(flush_len(self.fed())) =~= self.fed());
        }
        (self.pending, self.tail)
    }
}

/// Law: mid-stream, the sink has been handed exactly the fed prefix through
/// the last line terminator.  Nothing past that terminator leaves the tee
/// before the stream is finished, and everything up to it already has.
pub proof fn lemma_line_buffered(t: Tee)
    ensures
        t.written() == t.fed().take(flush_len(t.fed())),
        forall|i: int|
            flush_len(t.fed()) <= i < t.fed().len() ==> !is_line_end(#[trigger] t.fed()[i]),
        flush_len(t.fed()) > 0 ==> is_line_end(t.fed()[flush_len(t.fed()) - 1]),
{
    lemma_flush_boundary(t.fed());
}

/// Copies `input` to an in-memory sink through a `Tee`, chunk by chunk, and
/// returns the bytes the sink received together with the retained tail.  The
/// sink receives `input` exactly; the tail is the last `min(|input|,
/// max_bytes)` bytes of it.
pub fn tee(input: &[u8], max_bytes: usize) -> (r: (Vec<u8>, Vec<u8>))
    ensures
        r.0@ == input@,
        r.1@ == tail_spec(input@, max_bytes as int),
{
    let mut t = Tee::new(max_bytes);
    let mut sink: Vec<u8> = Vec::new();
    let mut i: usize = 0;
    proof {
        assert(input@.take(0) =~= Seq::<u8>::empty());
    }
    while i < input.len()
        invariant
            i <= input@.len(),
            t.wf(),
            t.cap() == max_bytes,
            t.fed() == input@.take(i as int),
            sink@ == t.written(),
        decreases input@.len() - i,
    {
        let end = if input.len() - i > READ_CHUNK { i + READ_CHUNK } else { input.len() };
        let chunk = slice_subrange(input, i, end);
        let mut w = t.push(chunk);
        sink.append(&mut w);
        proof {
            assert(input@.take(i as int) + chunk@ =~= input@.take(end as int));
        }
        i = end;
    }
    proof {
        assert(input@.take(i as int) =~= input@);
    }
    let (mut rest, tail) = t.finish();
    sink.append(&mut rest);
    (sink, tail)
}

} // verus!
