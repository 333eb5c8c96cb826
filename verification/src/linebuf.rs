//! Incremental line assembly. Bytes arrive from a non-blocking descriptor in
//! arbitrary chunks; command recognition may only run on complete lines, so
//! each direction of traffic keeps one accumulator that buffers a partial
//! line until its terminating newline arrives.

use vstd::prelude::*;

verus! {

/// The line delimiter: a newline byte.
pub const NL: u8 = 10;

/// Holds when `s` contains no newline byte.
pub open spec fn no_nl(s: Seq<u8>) -> bool {
    forall|i: int| 0 <= i < s.len() ==> s[i] != NL
}

/// The complete lines contained in `s`, in order. Each returned line keeps
/// its terminating newline byte; bytes after the last newline belong to no
/// complete line.
pub open spec fn complete_lines(s: Seq<u8>) -> Seq<Seq<u8>>
    decreases s.len(),
{
    if s.len() == 0 {
        Seq::empty()
    } else if s.last() == NL {
        complete_lines(s.drop_last()).push(partial_line(s.drop_last()).push(NL))
    } else {
        complete_lines(s.drop_last())
    }
}

/// The bytes of `s` after its last newline: the partial line still waiting
/// for its delimiter.
pub open spec fn partial_line(s: Seq<u8>) -> Seq<u8>
    decreases s.len(),
{
    if s.len() == 0 {
        Seq::empty()
    } else if s.last() == NL {
        Seq::empty()
    } else {
        partial_line(s.drop_last()).push(s.last())
    }
}

/// A partial line never contains the delimiter.
pub proof fn lemma_partial_line_no_nl(s: Seq<u8>)
    ensures
        no_nl(partial_line(s)),
    decreases s.len(),
{
    if s.len() == 0 {
    } else if s.last() == NL {
    } else {
        lemma_partial_line_no_nl(s.drop_last());
        assert forall|i: int| 0 <= i < partial_line(s).len() implies partial_line(s)[i] != NL by {
            if i < partial_line(s.drop_last()).len() {
                assert(partial_line(s)[i] == partial_line(s.drop_last())[i]);
            } else {
                assert(partial_line(s)[i] == s.last());
            }
        }
    }
}

/// A byte sequence without a newline holds no complete line: it is all
/// partial line. This is why no recognition and no auto-response can happen
/// before a delimiter arrives, whatever the accumulated text is.
pub proof fn lemma_no_newline_no_lines(s: Seq<u8>)
    requires
        no_nl(s),
    ensures
        complete_lines(s) == Seq::<Seq<u8>>::empty(),
        partial_line(s) == s,
    decreases s.len(),
{
    if s.len() == 0 {
        assert(partial_line(s) =~= s);
    } else {
        assert(s.last() != NL);
        assert(no_nl(s.drop_last()));
        lemma_no_newline_no_lines(s.drop_last());
        assert(partial_line(s) =~= s);
    }
}

/// One direction's accumulator: the bytes received since the last newline.
pub struct LineAccum {
    buf: Vec<u8>,
}

impl View for LineAccum {
    type V = Seq<u8>;

    closed spec fn view(&self) -> Seq<u8> {
        self.buf@
    }
}

impl LineAccum {
    /// The accumulator holds a partial line only: no delimiter inside.
    pub open spec fn wf(&self) -> bool {
        no_nl(self@)
    }

    /// An empty accumulator.
    pub fn new() -> (r: LineAccum)
        ensures
            r@ == Seq::<u8>::empty(),
            r.wf(),
    {
        LineAccum { buf: Vec::new() }
    }

    /// Appends a chunk of incoming bytes and hands back every line completed
    /// by it, each with its terminating newline; the bytes after the last
    /// newline stay buffered.
    pub fn push_and_split(&mut self, data: &Vec<u8>) -> (lines: Vec<Vec<u8>>)
        requires
            old(self).wf(),
        ensures
            lines.deep_view() == complete_lines(old(self)@ + data@),
            final(self)@ == partial_line(old(self)@ + data@),
            final(self).wf(),
    {
        let ghost start: Seq<u8> = self.buf@;
        proof {
            lemma_no_newline_no_lines(start);
            assert(start + data@.subrange(0, 0) =~= start);
        }
        let mut lines: Vec<Vec<u8>> = Vec::new();
        proof {
            assert(lines.deep_view() =~~= complete_lines(start + data@.subrange(0, 0)));
        }
        let mut i: usize = 0;
        while i < data.len()
            invariant
                i <= data.len(),
                lines.deep_view() == complete_lines(start + data@.subrange(0, i as int)),
                self.buf@ == partial_line(start + data@.subrange(0, i as int)),
            decreases data.len() - i,
        {
            let ghost seen: Seq<u8> = start + data@.subrange(0, i as int);
            let b = data[i];
            proof {
                assert(start + data@.subrange(0, i + 1) =~= seen.push(b));
                assert(seen.push(b).drop_last() =~= seen);
            }
            self.buf.push(b);
            if b == NL {
                let mut full: Vec<u8> = Vec::new();
                core::mem::swap(&mut full, &mut self.buf);
                let ghost before = lines.deep_view();
                lines.push(full);
                proof {
                    assert(lines.deep_view() =~~= before.push(full@));
                    assert(complete_lines(seen.push(b)) == complete_lines(seen).push(
                        partial_line(seen).push(NL),
                    ));
                    assert(partial_line(seen.push(b)) =~= Seq::<u8>::empty());
                }
            }
            i = i + 1;
        }
        proof {
            assert(start + data@.subrange(0, data@.len() as int) =~= start + data@);
            lemma_partial_line_no_nl(start + data@);
        }
        lines
    }
}

} // verus!
