//! The bounded line buffer behind the buffered sink.
//!
//! A buffer accumulates whole wire lines, separated by a newline byte, and
//! never lets a line be split across two datagrams: a line is either fully
//! appended, or the pending content is flushed first, or an oversize line is
//! sent as a datagram of its own.
use vstd::prelude::*;

use vstd::utf8::valid_utf8;

verus! {

/// Separator between lines within one datagram.
pub const NEWLINE: u8 = 10;

/// The datagram bytes carrying the given lines, joined by the separator.
pub open spec fn join_lines(lines: Seq<Seq<u8>>) -> Seq<u8>
    decreases lines.len(),
{
    if lines.len() == 0 {
        Seq::empty()
    } else if lines.len() == 1 {
        lines[0]
    } else {
        join_lines(lines.drop_last()) + seq![NEWLINE] + lines.last()
    }
}

pub proof fn lemma_join_lines_push(p: Seq<Seq<u8>>, l: Seq<u8>)
    ensures
        join_lines(p.push(l)) == if p.len() == 0 {
            l
        } else {
            join_lines(p) + seq![NEWLINE] + l
        },
{
    let q = p.push(l);
    if p.len() == 0 {
        assert(join_lines(q) == q[0]);
    } else {
        assert(q.drop_last() =~= p);
        assert(q.last() == l);
    }
}

/// Whether appending `line` behind the pending content would overflow the
/// capacity, so that the pending content must be flushed first.
pub open spec fn needs_preflush(pending: Seq<Seq<u8>>, line: Seq<u8>, cap: nat) -> bool {
    pending.len() > 0 && join_lines(pending).len() + 1 + line.len() > cap
}

/// The datagrams that one append sends, each given as the whole lines it
/// carries, in order.
pub open spec fn append_groups(pending: Seq<Seq<u8>>, line: Seq<u8>, cap: nat) -> Seq<
    Seq<Seq<u8>>,
> {
    let pre: Seq<Seq<Seq<u8>>> = if needs_preflush(pending, line, cap) {
        seq![pending]
    } else {
        seq![]
    };
    if line.len() > cap {
        pre + seq![seq![line]]
    } else {
        let kept = if needs_preflush(pending, line, cap) {
            Seq::<Seq<u8>>::empty()
        } else {
            pending
        };
        if join_lines(kept.push(line)).len() == cap {
            pre + seq![kept.push(line)]
        } else {
            pre
        }
    }
}

/// The datagrams that one append sends, as byte sequences, in order.
pub open spec fn append_sent(pending: Seq<Seq<u8>>, line: Seq<u8>, cap: nat) -> Seq<Seq<u8>> {
    append_groups(pending, line, cap).map_values(|g: Seq<Seq<u8>>| join_lines(g))
}

/// The lines left pending after one append.
pub open spec fn append_rest(pending: Seq<Seq<u8>>, line: Seq<u8>, cap: nat) -> Seq<Seq<u8>> {
    if line.len() > cap {
        if needs_preflush(pending, line, cap) {
            Seq::<Seq<u8>>::empty()
        } else {
            pending
        }
    } else {
        let kept = if needs_preflush(pending, line, cap) {
            Seq::<Seq<u8>>::empty()
        } else {
            pending
        };
        if join_lines(kept.push(line)).len() == cap {
            Seq::<Seq<u8>>::empty()
        } else {
            kept.push(line)
        }
    }
}

/// No line is ever split or dropped: every datagram an append sends carries
/// whole lines, and the sent lines followed by the still-pending lines are
/// exactly the previously pending lines followed by the new one, in order.
pub proof fn lemma_append_no_split(pending: Seq<Seq<u8>>, line: Seq<u8>, cap: nat)
    ensures
        append_sent(pending, line, cap) == append_groups(pending, line, cap).map_values(
            |g: Seq<Seq<u8>>| join_lines(g),
        ),
        append_groups(pending, line, cap).flatten() + append_rest(pending, line, cap)
            =~= pending.push(line),
{
    reveal_with_fuel(Seq::<_>::flatten, 4);
    let groups = append_groups(pending, line, cap);
    if line.len() > cap {
        if needs_preflush(pending, line, cap) {
            assert(groups =~= seq![pending, seq![line]]);
            assert(groups.drop_first() =~= seq![seq![line]]);
            assert(groups.flatten() =~= pending + seq![line]);
        } else {
            assert(groups =~= seq![seq![line]]);
        }
    } else {
        let kept = if needs_preflush(pending, line, cap) {
            Seq::<Seq<u8>>::empty()
        } else {
            pending
        };
        if join_lines(kept.push(line)).len() == cap {
            if needs_preflush(pending, line, cap) {
                assert(groups =~= seq![pending, kept.push(line)]);
                assert(groups.drop_first() =~= seq![kept.push(line)]);
                assert(groups.flatten() =~= pending + kept.push(line));
            } else {
                assert(groups =~= seq![kept.push(line)]);
            }
        } else {
            if needs_preflush(pending, line, cap) {
                assert(groups =~= seq![pending]);
            } else {
                assert(groups =~= Seq::<Seq<Seq<u8>>>::empty());
            }
        }
    }
}

/// The datagram groups sent over a whole run of appends into a buffer that
/// starts empty, in order.
pub open spec fn run_groups(lines: Seq<Seq<u8>>, cap: nat) -> Seq<Seq<Seq<u8>>>
    decreases lines.len(),
{
    if lines.len() == 0 {
        Seq::empty()
    } else {
        run_groups(lines.drop_last(), cap) + append_groups(
            run_rest(lines.drop_last(), cap),
            lines.last(),
            cap,
        )
    }
}

/// The lines still pending after a whole run of appends into a buffer that
/// starts empty.
pub open spec fn run_rest(lines: Seq<Seq<u8>>, cap: nat) -> Seq<Seq<u8>>
    decreases lines.len(),
{
    if lines.len() == 0 {
        Seq::empty()
    } else {
        append_rest(run_rest(lines.drop_last(), cap), lines.last(), cap)
    }
}

/// Over any sequence of lines appended to a buffer that starts empty: every
/// datagram carries whole lines, and the lines of all the datagrams, in
/// order, followed by the lines still pending, are exactly the appended
/// lines — none is ever split across two datagrams, dropped, or reordered,
/// however the cumulative length relates to the capacity.
pub proof fn lemma_run_no_split(lines: Seq<Seq<u8>>, cap: nat)
    ensures
        run_groups(lines, cap).flatten() + run_rest(lines, cap) =~= lines,
    decreases lines.len(),
{
    reveal_with_fuel(Seq::<_>::flatten, 3);
    if lines.len() == 0 {
        assert(run_groups(lines, cap).flatten() =~= Seq::<Seq<u8>>::empty());
    } else {
        let init = lines.drop_last();
        let l = lines.last();
        lemma_run_no_split(init, cap);
        let p = run_rest(init, cap);
        lemma_append_no_split(p, l, cap);
        let a = run_groups(init, cap);
        let b = append_groups(p, l, cap);
        if b.len() == 0 {
            assert(a + b =~= a);
        } else if b.len() == 1 {
            assert(a + b =~= a.push(b[0]));
            a.lemma_flatten_push(b[0]);
            assert(b.flatten() =~= b[0]);
        } else {
            assert(b.len() == 2);
            assert(a + b =~= a.push(b[0]).push(b[1]));
            a.lemma_flatten_push(b[0]);
            a.push(b[0]).lemma_flatten_push(b[1]);
            assert(b.drop_first() =~= seq![b[1]]);
            assert(b.flatten() =~= b[0] + b[1]);
        }
        assert((a + b).flatten() =~= a.flatten() + b.flatten());
        assert(init.push(l) =~= lines);
    }
}

/// A line that exactly fills the buffer to capacity is flushed at once,
/// leaving the buffer empty.
pub proof fn lemma_append_exact_fill(pending: Seq<Seq<u8>>, line: Seq<u8>, cap: nat)
    requires
        !needs_preflush(pending, line, cap),
        line.len() <= cap,
        join_lines(pending.push(line)).len() == cap,
    ensures
        append_rest(pending, line, cap) == Seq::<Seq<u8>>::empty(),
        append_sent(pending, line, cap) == seq![join_lines(pending.push(line))],
{
    assert(append_groups(pending, line, cap) =~= seq![pending.push(line)]);
    assert(append_sent(pending, line, cap) =~= seq![join_lines(pending.push(line))]);
}

/// A single line longer than the capacity is sent as its own datagram, the
/// pending content going out first, unchanged and in order; the buffer is
/// left empty.
pub proof fn lemma_append_oversize(pending: Seq<Seq<u8>>, line: Seq<u8>, cap: nat)
    requires
        line.len() > cap,
    ensures
        append_rest(pending, line, cap) == Seq::<Seq<u8>>::empty(),
        pending.len() > 0 ==> append_sent(pending, line, cap) == seq![
            join_lines(pending),
            line,
        ],
        pending.len() == 0 ==> append_sent(pending, line, cap) == seq![line],
{
    if pending.len() > 0 {
        assert(needs_preflush(pending, line, cap));
        assert(append_sent(pending, line, cap) =~= seq![join_lines(pending), line]);
    } else {
        assert(append_sent(pending, line, cap) =~= seq![line]);
    }
}

/// A bounded accumulator of wire lines. The capacity is the largest datagram
/// the transport should carry.
pub struct LineBuffer {
    data: Vec<u8>,
    capacity: usize,
    lines: Ghost<Seq<Seq<u8>>>,
}

impl LineBuffer {
    /// The bytes currently pending, lines joined by the separator.
    pub closed spec fn contents(&self) -> Seq<u8> {
        self.data@
    }

    /// The capacity the buffer was made with.
    pub closed spec fn cap(&self) -> nat {
        self.capacity as nat
    }

    /// The lines currently pending, in append order.
    pub closed spec fn pending(&self) -> Seq<Seq<u8>> {
        self.lines@
    }

    /// The buffer never holds a partially written line, never reaches its
    /// capacity (content at capacity is flushed at once), and its bytes are
    /// exactly the pending lines joined by the separator.
    pub open spec fn wf(&self) -> bool {
        &&& self.contents() == join_lines(self.pending())
        &&& valid_utf8(self.contents())
        &&& (forall|i: int|
            0 <= i < self.pending().len() ==> (#[trigger] self.pending()[i]).len() > 0)
        &&& self.pending().len() > 0 ==> 0 < self.contents().len() < self.cap()
        &&& self.pending().len() == 0 ==> self.contents().len() == 0
    }

    pub fn new(capacity: usize) -> (r: LineBuffer)
        ensures
            r.wf(),
            r.cap() == capacity as nat,
            r.pending() == Seq::<Seq<u8>>::empty(),
    {
        let r = LineBuffer { data: Vec::new(), capacity, lines: Ghost(Seq::empty()) };
        proof {
            vstd::utf8::encode_utf8_valid_utf8(Seq::<char>::empty());
            assert(vstd::utf8::encode_utf8(Seq::<char>::empty()) =~= Seq::<u8>::empty());
            assert(r.contents() =~= join_lines(r.pending()));
        }
        r
    }

    /// Number of bytes currently pending.
    pub fn len(&self) -> (n: usize)
        ensures
            n == self.contents().len(),
    {
        self.data.len()
    }

    /// The capacity the buffer was made with.
    pub fn capacity(&self) -> (n: usize)
        ensures
            n == self.cap(),
    {
        self.capacity
    }

    /// Whether no line is pending.
    pub fn is_empty(&self) -> (r: bool)
        requires
            self.wf(),
        ensures
            r == (self.pending().len() == 0),
    {
        self.data.len() == 0
    }

    /// Appends one line, returning the datagrams that must be sent now, in
    /// order: the pending content when the line would not fit behind it, the
    /// line alone when it is longer than the whole capacity, and the new
    /// content when the line fills the buffer exactly.
    pub fn append(&mut self, line: &Vec<u8>) -> (out: Vec<Vec<u8>>)
        requires
            old(self).wf(),
            line@.len() > 0,
            valid_utf8(line@),
        ensures
            final(self).wf(),
            final(self).cap() == old(self).cap(),
            out@.len() == append_sent(old(self).pending(), line@, old(self).cap()).len(),
            forall|i: int|
                0 <= i < out@.len() ==> #[trigger] out@[i]@ == append_sent(
                    old(self).pending(),
                    line@,
                    old(self).cap(),
                )[i],
            forall|i: int| 0 <= i < out@.len() ==> valid_utf8(#[trigger] out@[i]@),
            final(self).pending() == append_rest(old(self).pending(), line@, old(self).cap()),
    {
        let ghost p0 = self.pending();
        let ghost c = self.cap();
        let mut out: Vec<Vec<u8>> = Vec::new();
        if self.data.len() > 0 && line.len() > self.capacity - (self.data.len() + 1) {
            let mut taken: Vec<u8> = Vec::new();
            core::mem::swap(&mut taken, &mut self.data);
            self.lines = Ghost(Seq::empty());
            out.push(taken);
            proof {
                assert(needs_preflush(p0, line@, c));
            }
        } else {
            proof {
                assert(!needs_preflush(p0, line@, c));
            }
        }
        let ghost kept = self.pending();
        let ghost sent = append_sent(p0, line@, c);
        if line.len() > self.capacity {
            out.push(vstd::slice::slice_to_vec(line.as_slice()));
            proof {
                assert(out@.len() == sent.len());
                assert(forall|i: int| 0 <= i < out@.len() ==> #[trigger] out@[i]@ == sent[i]);
            }
        } else {
            let ghost mid = self.data@;
            if self.data.len() > 0 {
                self.data.push(NEWLINE);
            }
            let ghost base = self.data@;
            let mut i: usize = 0;
            while i < line.len()
                invariant
                    i <= line@.len(),
                    self.data@ == base + line@.subrange(0, i as int),
                    self.capacity == old(self).capacity,
                    self.lines == old(self).lines || self.lines@ == Seq::<Seq<u8>>::empty(),
                decreases line@.len() - i,
            {
                let b = line[i];
                self.data.push(b);
                proof {
                    assert(self.data@ =~= base + line@.subrange(0, i as int + 1));
                }
                i += 1;
            }
            proof {
                assert(line@.subrange(0, line@.len() as int) =~= line@);
                lemma_join_lines_push(kept, line@);
                assert(self.data@ =~= join_lines(kept.push(line@)));
                vstd::utf8::encode_utf8_valid_utf8(seq!['\n']);
                vstd::utf8::is_ascii_chars_encode_utf8(seq!['\n']);
                assert(vstd::utf8::encode_utf8(seq!['\n']) =~= seq![NEWLINE]);
                if mid.len() > 0 {
                    vstd::utf8::valid_utf8_concat(mid, seq![NEWLINE]);
                    assert(base =~= mid + seq![NEWLINE]);
                    vstd::utf8::valid_utf8_concat(base, line@);
                } else {
                    assert(self.data@ =~= line@);
                }
                assert(valid_utf8(self.data@));
            }
            self.lines = Ghost(kept.push(line@));
            if self.data.len() == self.capacity {
                let mut taken: Vec<u8> = Vec::new();
                core::mem::swap(&mut taken, &mut self.data);
                self.lines = Ghost(Seq::empty());
                out.push(taken);
            }
            proof {
                assert(out@.len() == sent.len());
                assert(forall|i: int| 0 <= i < out@.len() ==> #[trigger] out@[i]@ == sent[i]);
            }
        }
        out
    }

    /// Takes the pending content out as one datagram, leaving the buffer
    /// empty; gives nothing when nothing is pending.
    pub fn flush(&mut self) -> (out: Option<Vec<u8>>)
        requires
            old(self).wf(),
        ensures
            final(self).wf(),
            final(self).cap() == old(self).cap(),
            final(self).pending() == Seq::<Seq<u8>>::empty(),
            match out {
                Some(d) => old(self).pending().len() > 0 && d@ == join_lines(
                    old(self).pending(),
                ),
                None => old(self).pending().len() == 0,
            },
    {
        if self.data.len() == 0 {
            None
        } else {
            let mut taken: Vec<u8> = Vec::new();
            core::mem::swap(&mut taken, &mut self.data);
            self.lines = Ghost(Seq::empty());
            Some(taken)
        }
    }
}

} // verus!
