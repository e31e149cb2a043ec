//! The transport framer: turns arbitrarily-chunked raw bytes into complete,
//! trimmed messages.
//!
//! Bytes accumulate in a bounded line buffer.  When the two-byte delimiter
//! `CR LF` completes a line, the line's content is trimmed of ASCII whitespace
//! and, if anything remains, queued as one message.  A line that would
//! outgrow the buffer (its bytes, delimiter included, exceed the capacity) is
//! dropped whole: the buffer is cleared, the overflow is reported, and the
//! rest of that line is skipped up to its terminating `LF`.  Because every
//! byte is processed one at a time, the messages produced do not depend on
//! how the stream was cut into chunks.
use vstd::prelude::*;

verus! {

use vstd::slice::slice_subrange;
use crate::bytes::spec_trim;
use crate::bytes::trim;

/// Mathematical image of a [`Framer`]: the capacity, the pending line bytes,
/// whether the rest of an overlong line is being skipped, and the messages
/// framed but not yet taken.
#[verifier::ext_equal]
pub struct FramerView {
    pub cap: int,
    pub acc: Seq<u8>,
    pub discarding: bool,
    pub msgs: Seq<Seq<u8>>,
}

/// The framer state after one more byte.
pub open spec fn step(m: FramerView, b: u8) -> FramerView {
    if m.discarding {
        if b == 0x0a {
            FramerView { discarding: false, ..m }
        } else {
            m
        }
    } else if m.acc.len() >= m.cap {
        // the line has outgrown the buffer: drop it and skip to its end
        FramerView { acc: Seq::empty(), discarding: b != 0x0a, ..m }
    } else {
        let acc1 = m.acc.push(b);
        if b == 0x0a && acc1.len() >= 2 && acc1[acc1.len() - 2] == 0x0d {
            let content = spec_trim(acc1.take(acc1.len() - 2));
            FramerView {
                acc: Seq::empty(),
                discarding: false,
                msgs: if content.len() > 0 {
                    m.msgs.push(content)
                } else {
                    m.msgs
                },
                ..m
            }
        } else {
            FramerView { acc: acc1, ..m }
        }
    }
}

/// True when feeding `b` in state `m` overflows the line buffer.
pub open spec fn step_overflows(m: FramerView, b: u8) -> bool {
    !m.discarding && m.acc.len() >= m.cap
}

/// The framer state after a whole byte sequence, first byte first.
pub open spec fn steps(m: FramerView, s: Seq<u8>) -> FramerView
    decreases s.len(),
{
    if s.len() == 0 {
        m
    } else {
        steps(step(m, s[0]), s.drop_first())
    }
}

/// True when feeding `s` in state `m` overflows the line buffer at some byte.
pub open spec fn steps_overflow(m: FramerView, s: Seq<u8>) -> bool
    decreases s.len(),
{
    s.len() > 0 && (step_overflows(m, s[0]) || steps_overflow(step(m, s[0]), s.drop_first()))
}

/// Line-buffer capacity that fits every indication of the registry: the
/// longest is a track-metadata record, whose three text fields and separators
/// stay well under this bound on the wire, delimiter included.
pub const RECOMMENDED_CAPACITY: usize = 96;

/// The state of a freshly created framer.
pub open spec fn initial(cap: int) -> FramerView {
    FramerView { cap: cap, acc: Seq::empty(), discarding: false, msgs: Seq::empty() }
}

/// Feeding a concatenation is feeding the pieces one after the other.
pub proof fn lemma_steps_concat(m: FramerView, a: Seq<u8>, b: Seq<u8>)
    ensures
        steps(m, a + b) == steps(steps(m, a), b),
    decreases a.len(),
{
    if a.len() == 0 {
        assert(a + b =~= b);
    } else {
        assert((a + b)[0] == a[0]);
        assert((a + b).drop_first() =~= a.drop_first() + b);
        lemma_steps_concat(step(m, a[0]), a.drop_first(), b);
    }
}

/// One more byte extends the fold by one step.
proof fn lemma_steps_snoc(m: FramerView, s: Seq<u8>, b: u8)
    ensures
        steps(m, s.push(b)) == step(steps(m, s), b),
{
    assert(s.push(b) =~= s + seq![b]);
    lemma_steps_concat(m, s, seq![b]);
    assert(steps(steps(m, s), seq![b]) == step(steps(m, s), b)) by {
        reveal_with_fuel(steps, 2);
        assert(seq![b].drop_first() =~= Seq::<u8>::empty());
    }
}

/// Overflow over a concatenation happens in the first piece or in the second.
proof fn lemma_steps_overflow_concat(m: FramerView, a: Seq<u8>, b: Seq<u8>)
    ensures
        steps_overflow(m, a + b) == (steps_overflow(m, a) || steps_overflow(steps(m, a), b)),
    decreases a.len(),
{
    if a.len() == 0 {
        assert(a + b =~= b);
    } else {
        assert((a + b)[0] == a[0]);
        assert((a + b).drop_first() =~= a.drop_first() + b);
        lemma_steps_overflow_concat(step(m, a[0]), a.drop_first(), b);
    }
}

/// The framer state after feeding a sequence of chunks one after the other.
pub open spec fn feed_chunks(m: FramerView, chunks: Seq<Seq<u8>>) -> FramerView
    decreases chunks.len(),
{
    if chunks.len() == 0 {
        m
    } else {
        feed_chunks(steps(m, chunks[0]), chunks.drop_first())
    }
}

/// Chunk-boundary independence: however a byte stream is cut into chunks,
/// feeding the chunks one after the other leaves the framer in exactly the
/// state that feeding the unbroken stream leaves it in.  In particular the
/// messages framed, and their order, do not depend on the chunking.
pub proof fn lemma_chunking_independent(m: FramerView, chunks: Seq<Seq<u8>>)
    ensures
        feed_chunks(m, chunks) == steps(m, chunks.flatten()),
    decreases chunks.len(),
{
    if chunks.len() == 0 {
        assert(steps(m, chunks.flatten()) == m);
    } else {
        lemma_chunking_independent(steps(m, chunks[0]), chunks.drop_first());
        lemma_steps_concat(m, chunks[0], chunks.drop_first().flatten());
        assert(chunks.flatten() == chunks[0] + chunks.drop_first().flatten());
    }
}

/// While the framer is skipping an overlong line, bytes short of the line feed
/// change nothing.
proof fn lemma_discard_skips(m: FramerView, s: Seq<u8>)
    requires
        m.discarding,
        forall|i: int| 0 <= i < s.len() ==> s[i] != 0x0a,
    ensures
        steps(m, s) == m,
    decreases s.len(),
{
    if s.len() > 0 {
        lemma_discard_skips(m, s.drop_first());
    }
}

/// Feeding more bytes than the buffer holds, none of them a line feed, drops
/// the whole line: the buffer is cleared, the overflow is recorded, no message
/// is produced, and the framer skips until the line's end.
proof fn lemma_junk_overflow(m: FramerView, junk: Seq<u8>)
    requires
        !m.discarding,
        m.acc.len() <= m.cap,
        m.acc.len() + junk.len() > m.cap,
        forall|i: int| 0 <= i < junk.len() ==> junk[i] != 0x0a,
    ensures
        steps(m, junk) == (FramerView {
            acc: Seq::empty(),
            discarding: true,
            msgs: m.msgs,
            cap: m.cap,
        }),
        steps_overflow(m, junk),
    decreases junk.len(),
{
    let b = junk[0];
    let rest = junk.drop_first();
    if m.acc.len() >= m.cap {
        let m1 = step(m, b);
        assert(m1 =~~= (FramerView {
            acc: Seq::empty(),
            discarding: true,
            msgs: m.msgs,
            cap: m.cap,
        }));
        lemma_discard_skips(m1, rest);
    } else {
        let m1 = step(m, b);
        assert(m1 =~~= (FramerView { acc: m.acc.push(b), ..m }));
        lemma_junk_overflow(m1, rest);
    }
}

/// Overflow recovery: an overlong line, longer than the capacity and without a
/// line feed, yields no message and reports the overflow; and once the line's
/// terminating delimiter arrives, the framer handles all further input exactly
/// as a fresh framer would.
pub proof fn lemma_overflow_recovery(cap: int, junk: Seq<u8>, rest: Seq<u8>)
    requires
        cap >= 0,
        junk.len() > cap,
        forall|i: int| 0 <= i < junk.len() ==> junk[i] != 0x0a,
    ensures
        steps(initial(cap), junk).msgs == Seq::<Seq<u8>>::empty(),
        steps_overflow(initial(cap), junk),
        steps(initial(cap), junk + seq![0x0du8, 0x0au8] + rest) == steps(initial(cap), rest),
{
    let m0 = initial(cap);
    lemma_junk_overflow(m0, junk);
    let m1 = steps(m0, junk);
    let crlf = seq![0x0du8, 0x0au8];
    lemma_steps_concat(m0, junk + crlf, rest);
    lemma_steps_concat(m0, junk, crlf);
    assert((junk + crlf) + rest =~= junk + crlf + rest);
    assert(steps(m1, crlf) == m0) by {
        reveal_with_fuel(steps, 3);
        assert(crlf[0] == 0x0d && crlf.drop_first()[0] == 0x0a);
        assert(crlf.drop_first().drop_first() =~= Seq::<u8>::empty());
        assert(step(step(m1, 0x0d), 0x0a) =~~= m0);
    }
}

/// The line buffer really is bounded: however many bytes are fed, it never
/// holds more than the capacity.
pub proof fn lemma_buffer_bounded(m: FramerView, s: Seq<u8>)
    requires
        m.acc.len() <= m.cap,
    ensures
        steps(m, s).acc.len() <= m.cap,
        steps(m, s).cap == m.cap,
    decreases s.len(),
{
    if s.len() > 0 {
        lemma_buffer_bounded(step(m, s[0]), s.drop_first());
    }
}

/// An empty message is never produced: lines whose trimmed content is empty
/// are discarded, so every message the framer queues is nonempty.
pub proof fn lemma_no_empty_messages(m: FramerView, s: Seq<u8>)
    requires
        forall|k: int| 0 <= k < m.msgs.len() ==> m.msgs[k].len() > 0,
    ensures
        forall|k: int| 0 <= k < steps(m, s).msgs.len() ==> steps(m, s).msgs[k].len() > 0,
    decreases s.len(),
{
    if s.len() > 0 {
        let m1 = step(m, s[0]);
        assert forall|k: int| 0 <= k < m1.msgs.len() implies m1.msgs[k].len() > 0 by {
            if k < m.msgs.len() {
                assert(m1.msgs[k] == m.msgs[k]);
            }
        }
        lemma_no_empty_messages(m1, s.drop_first());
        assert(steps(m, s) == steps(m1, s.drop_first()));
    }
}

/// The transport framer.  `feed` accumulates bytes and frames complete lines;
/// `try_take_message` hands the framed messages out in arrival order.
pub struct Framer {
    cap: usize,
    acc: Vec<u8>,
    discarding: bool,
    out: Vec<Vec<u8>>,
}

impl View for Framer {
    type V = FramerView;

    closed spec fn view(&self) -> FramerView {
        FramerView {
            cap: self.cap as int,
            acc: self.acc@,
            discarding: self.discarding,
            msgs: self.out.deep_view(),
        }
    }
}

impl Framer {
    /// A framer whose line buffer holds at most `capacity` bytes.  Lines whose
    /// bytes, delimiter included, exceed the capacity are dropped whole.
    pub fn new(capacity: usize) -> (r: Framer)
        ensures
            r@ == initial(capacity as int),
    {
        let r = Framer { cap: capacity, acc: Vec::new(), discarding: false, out: Vec::new() };
        proof {
            assert(r@ =~~= initial(capacity as int));
        }
        r
    }

    /// Appends one chunk of transport bytes, framing every line it completes.
    /// Returns true when some line overflowed the buffer and was dropped.
    pub fn feed(&mut self, chunk: &[u8]) -> (overflowed: bool)
        ensures
            final(self)@ == steps(old(self)@, chunk@),
            overflowed == steps_overflow(old(self)@, chunk@),
    {
        let ghost m0: FramerView = self@;
        let n: usize = chunk.len();
        let mut i: usize = 0;
        let mut overflowed: bool = false;
        proof {
            assert(chunk@.take(0) =~= Seq::<u8>::empty());
        }
        while i < n
            invariant
                n == chunk@.len(),
                0 <= i <= n,
                self@.cap == m0.cap,
                self@ == steps(m0, chunk@.take(i as int)),
                overflowed == steps_overflow(m0, chunk@.take(i as int)),
            decreases n - i,
        {
            let b: u8 = chunk[i];
            let ghost before: FramerView = self@;
            if self.discarding {
                if b == 0x0a {
                    self.discarding = false;
                }
                proof {
                    assert(self@ =~~= step(before, b));
                }
            } else if self.acc.len() >= self.cap {
                self.acc.clear();
                self.discarding = b != 0x0a;
                overflowed = true;
                proof {
                    assert(self@ =~~= step(before, b));
                }
            } else {
                self.acc.push(b);
                let len: usize = self.acc.len();
                if b == 0x0a && len >= 2 && self.acc[len - 2] == 0x0d {
                    let content: Vec<u8> = trim(slice_subrange(self.acc.as_slice(), 0, len - 2));
                    proof {
                        assert(self.acc@.take(len - 2) =~= before.acc.push(b).take(
                            before.acc.push(b).len() - 2,
                        ));
                    }
                    if content.len() > 0 {
                        self.out.push(content);
                        proof {
                            assert(self.out.deep_view() =~~= before.msgs.push(content@));
                        }
                    }
                    self.acc.clear();
                    proof {
                        assert(self@ =~~= step(before, b));
                    }
                } else {
                    proof {
                        assert(self@ =~~= step(before, b));
                    }
                }
            }
            proof {
                lemma_steps_snoc(m0, chunk@.take(i as int), b);
                assert(chunk@.take(i + 1) =~= chunk@.take(i as int).push(b));
                assert(steps_overflow(m0, chunk@.take(i + 1)) == (steps_overflow(
                    m0,
                    chunk@.take(i as int),
                ) || step_overflows(before, b))) by {
                    reveal_with_fuel(steps_overflow, 2);
                    lemma_steps_overflow_concat(m0, chunk@.take(i as int), seq![b]);
                    assert(chunk@.take(i + 1) =~= chunk@.take(i as int) + seq![b]);
                    assert(seq![b].drop_first() =~= Seq::<u8>::empty());
                }
            }
            i += 1;
        }
        proof {
            assert(chunk@.take(n as int) =~= chunk@);
        }
        overflowed
    }

    /// Takes the oldest framed message, if one is pending.  Messages come out
    /// in exactly the order their lines arrived.
    pub fn try_take_message(&mut self) -> (r: Option<Vec<u8>>)
        ensures
            match r {
                None => final(self)@ == old(self)@ && old(self)@.msgs.len() == 0,
                Some(msg) => old(self)@.msgs.len() > 0 && msg@ == old(self)@.msgs[0]
                    && final(self)@ == (FramerView {
                    msgs: old(self)@.msgs.drop_first(),
                    ..old(self)@
                }),
            },
    {
        if self.out.len() == 0 {
            proof {
                assert(self.out.deep_view() =~~= Seq::<Seq<u8>>::empty());
            }
            None
        } else {
            let msg: Vec<u8> = self.out.remove(0);
            proof {
                assert(self.out.deep_view() =~~= old(self).out.deep_view().drop_first());
                assert(self@ =~~= (FramerView { msgs: old(self)@.msgs.drop_first(), ..old(self)@ }));
            }
            Some(msg)
        }
    }


    /// The marker byte `0xff`, which the hardware occasionally emits though
    /// the text protocol never uses it, replaced by a comma throughout.
    pub open spec fn substituted(chunk: Seq<u8>) -> Seq<u8> {
        chunk.map_values(
            |b: u8|
                if b == 0xff {
                    0x2cu8
                } else {
                    b
                },
        )
    }

    /// Like [`Framer::feed`], for line-oriented ASCII-only consumers: every
    /// `0xff` byte is replaced by a comma before accumulation.
    pub fn feed_substituting(&mut self, chunk: &[u8]) -> (overflowed: bool)
        ensures
            final(self)@ == steps(old(self)@, Framer::substituted(chunk@)),
            overflowed == steps_overflow(old(self)@, Framer::substituted(chunk@)),
    {
        let mut cleaned: Vec<u8> = Vec::new();
        let n: usize = chunk.len();
        let mut i: usize = 0;
        while i < n
            invariant
                n == chunk@.len(),
                0 <= i <= n,
                cleaned@ =~= Framer::substituted(chunk@.take(i as int)),
            decreases n - i,
        {
            let b: u8 = chunk[i];
            cleaned.push(
                if b == 0xff {
                    0x2c
                } else {
                    b
                },
            );
            proof {
                assert(cleaned@ =~= Framer::substituted(chunk@.take(i + 1)));
            }
            i += 1;
        }
        proof {
            assert(chunk@.take(n as int) =~= chunk@);
        }
        self.feed(cleaned.as_slice())
    }

    /// The capacity the framer was created with.
    pub fn capacity(&self) -> (r: usize)
        ensures
            r == self@.cap,
    {
        self.cap
    }
}

} // verus!
