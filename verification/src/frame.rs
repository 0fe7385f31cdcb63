//! Framing a chunked character stream into newline-delimited records.
//! Chunk boundaries carry no meaning: partial lines are held until their
//! newline arrives, and whatever trails the last newline stays pending.
//! Both the pull-progress consumer and the generation relay read their
//! upstream bodies through this utility.

use vstd::prelude::*;
use vstd::string::StringExecFns;

verus! {

/// A line with one trailing carriage return removed.
pub open spec fn strip_cr(l: Seq<char>) -> Seq<char> {
    if l.len() > 0 && l[l.len() - 1] == '\r' {
        l.drop_last()
    } else {
        l
    }
}

/// The index of the first newline of `s`; meaningful only when one exists.
pub open spec fn first_nl(s: Seq<char>) -> int
    decreases s.len(),
{
    if s.len() == 0 {
        0
    } else if s[0] == '\n' {
        0
    } else {
        1 + first_nl(s.drop_first())
    }
}

proof fn lemma_first_nl_in_range(s: Seq<char>)
    requires
        s.contains('\n'),
    ensures
        0 <= first_nl(s) < s.len(),
        s[first_nl(s)] == '\n',
        forall|k: int| 0 <= k < first_nl(s) ==> s[k] != '\n',
    decreases s.len(),
{
    let w = choose|w: int| 0 <= w < s.len() && s[w] == '\n';
    if s[0] != '\n' {
        assert(s.drop_first()[w - 1] == '\n');
        assert(s.drop_first().contains('\n'));
        lemma_first_nl_in_range(s.drop_first());
        assert forall|k: int| 0 <= k < first_nl(s) implies s[k] != '\n' by {
            if k > 0 {
                assert(s.drop_first()[k - 1] != '\n');
            }
        }
    }
}

/// The complete lines of `s`: each newline-terminated segment in order,
/// with a trailing carriage return removed. Characters after the last
/// newline belong to no complete line.
pub open spec fn complete_lines(s: Seq<char>) -> Seq<Seq<char>>
    decreases s.len(),
    via complete_lines_decreases
{
    if !s.contains('\n') {
        Seq::empty()
    } else {
        seq![strip_cr(s.take(first_nl(s)))] + complete_lines(s.skip(first_nl(s) + 1))
    }
}

#[via_fn]
proof fn complete_lines_decreases(s: Seq<char>) {
    if s.contains('\n') {
        lemma_first_nl_in_range(s);
    }
}

/// What remains of `s` after its last complete line: the pending partial
/// line, still waiting for a newline.
pub open spec fn line_rest(s: Seq<char>) -> Seq<char>
    decreases s.len(),
    via line_rest_decreases
{
    if !s.contains('\n') {
        s
    } else {
        line_rest(s.skip(first_nl(s) + 1))
    }
}

#[via_fn]
proof fn line_rest_decreases(s: Seq<char>) {
    if s.contains('\n') {
        lemma_first_nl_in_range(s);
    }
}

proof fn lemma_split_step(s: Seq<char>, i: int)
    requires
        0 <= i < s.len(),
        s[i] == '\n',
        forall|k: int| 0 <= k < i ==> s[k] != '\n',
    ensures
        complete_lines(s) == seq![strip_cr(s.take(i))] + complete_lines(s.skip(i + 1)),
        line_rest(s) == line_rest(s.skip(i + 1)),
{
    assert(s.contains('\n'));
    lemma_first_nl_in_range(s);
    let f = first_nl(s);
    if f < i {
        assert(s[f] != '\n');
    } else if f > i {
        assert(s[i] != '\n');
    }
    assert(f == i);
}

proof fn lemma_split_none(s: Seq<char>)
    requires
        forall|k: int| 0 <= k < s.len() ==> s[k] != '\n',
    ensures
        complete_lines(s) == Seq::<Seq<char>>::empty(),
        line_rest(s) == s,
{
    if s.contains('\n') {
        let w = choose|w: int| 0 <= w < s.len() && s[w] == '\n';
        assert(false);
    }
}

/// Copy `s[start..end]` into an owned line, removing a trailing carriage
/// return.
fn segment_stripped(s: &str, start: usize, end: usize) -> (r: String)
    requires
        start <= end <= s@.len(),
    ensures
        r@ == strip_cr(s@.subrange(start as int, end as int)),
{
    let e2 = if end > start && s.get_char(end - 1) == '\r' {
        end - 1
    } else {
        end
    };
    let r = String::from_str(s.substring_char(start, e2));
    proof {
        assert(strip_cr(s@.subrange(start as int, end as int)) =~= s@.subrange(
            start as int,
            e2 as int,
        ));
    }
    r
}

/// Frames a character stream into lines: feed it arbitrary chunks, get back
/// the lines completed so far. Its view is the pending partial line.
pub struct LineFramer {
    buf: String,
}

impl View for LineFramer {
    type V = Seq<char>;

    closed spec fn view(&self) -> Seq<char> {
        self.buf@
    }
}

impl LineFramer {
    /// The pending text never holds a newline.
    #[verifier::type_invariant]
    spec fn wf(self) -> bool {
        !self@.contains('\n')
    }

    /// A framer with nothing pending.
    pub fn new() -> (r: Self)
        ensures
            r@ == Seq::<char>::empty(),
    {
        LineFramer { buf: String::new() }
    }

    /// Feed one chunk. Returns every line completed by it, in order; the
    /// text after the last newline stays pending for the next chunk.
    pub fn push(&mut self, chunk: &str) -> (lines: Vec<String>)
        ensures
            lines.deep_view() == complete_lines(old(self)@ + chunk@),
            final(self)@ == line_rest(old(self)@ + chunk@),
    {
        proof {
            use_type_invariant(&*self);
        }
        let mut buf = String::new();
        core::mem::swap(&mut buf, &mut self.buf);
        buf.append(chunk);
        let ghost full = buf@;
        let n = buf.as_str().unicode_len();
        let mut lines: Vec<String> = Vec::new();
        let mut start: usize = 0;
        let mut i: usize = 0;
        proof {
            assert(full.skip(0) =~= full);
        }
        while i < n
            invariant
                full == buf@,
                n == full.len(),
                0 <= start <= i <= n,
                forall|k: int| start <= k < i ==> full[k] != '\n',
                complete_lines(full) == lines.deep_view() + complete_lines(full.skip(start as int)),
                line_rest(full) == line_rest(full.skip(start as int)),
            decreases n - i,
        {
            if buf.as_str().get_char(i) == '\n' {
                let seg = segment_stripped(buf.as_str(), start, i);
                let ghost pre = lines.deep_view();
                lines.push(seg);
                proof {
                    let rel = full.skip(start as int);
                    assert(rel[i - start] == '\n');
                    assert forall|k: int| 0 <= k < i - start implies rel[k] != '\n' by {
                        assert(full[start + k] != '\n');
                    }
                    lemma_split_step(rel, i - start);
                    assert(rel.take(i - start) =~= full.subrange(start as int, i as int));
                    assert(rel.skip(i - start + 1) =~= full.skip(i + 1));
                    assert(lines.deep_view() =~= pre + seq![seg@]);
                    assert(pre + seq![seg@] + complete_lines(full.skip(i + 1)) =~= pre + (seq![seg@]
                        + complete_lines(full.skip(i + 1))));
                }
                start = i + 1;
            }
            i = i + 1;
        }
        proof {
            let rel = full.skip(start as int);
            assert forall|k: int| 0 <= k < rel.len() implies rel[k] != '\n' by {
                assert(full[start + k] != '\n');
            }
            lemma_split_none(rel);
            assert(lines.deep_view() + Seq::<Seq<char>>::empty() =~= lines.deep_view());
        }
        let rest = String::from_str(buf.as_str().substring_char(start, n));
        proof {
            assert(full.skip(start as int) =~= full.subrange(start as int, n as int));
            if rest@.contains('\n') {
                let w = choose|w: int| 0 <= w < rest@.len() && rest@[w] == '\n';
                assert(full[start + w] != '\n');
            }
        }
        self.buf = rest;
        lines
    }
}

} // verus!


