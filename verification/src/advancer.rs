use vstd::prelude::*;
use vstd::assert_seqs_equal;

verus! {

/// How much of the buffer one keypress reveals: a fixed run of at least one
/// character, or one whole line — revealed as a line-oriented read hands it
/// out, its `"\n"` or `"\r\n"` ending stripped and exactly one newline
/// re-appended, the final unterminated line included.
#[derive(Clone, Copy, Debug, PartialEq, Eq, Structural)]
pub enum RevealUnit {
    Chars(usize),
    Line,
}

impl RevealUnit {
    /// A character-run unit must reveal at least one character per keypress.
    pub open spec fn wf(self) -> bool {
        match self {
            RevealUnit::Chars(cps) => cps >= 1,
            RevealUnit::Line => true,
        }
    }
}

/// The playback cursor of one file pass: `revealed_end` is the exclusive end
/// of the text already shown, `pending_end` the exclusive end of the span the
/// next keypress will reveal.
#[derive(Clone, Copy, Debug, PartialEq, Eq, Structural)]
pub struct Cursor {
    pub revealed_end: usize,
    pub pending_end: usize,
}

/// Whitespace that a newline-led span swallows: the leading indentation of
/// the following line.
pub open spec fn is_indent_char(c: char) -> bool {
    c == ' ' || c == '\r' || c == '\t'
}

/// First position at or after `n` that does not hold an indentation
/// character (or the end of the buffer).
pub open spec fn skip_indent(buf: Seq<char>, n: int) -> int
    decreases buf.len() - n when 0 <= n <= buf.len()
{
    if n < buf.len() && is_indent_char(buf[n]) {
        skip_indent(buf, n + 1)
    } else {
        n
    }
}

/// Exclusive end of the line that starts at `n`: one past the next newline,
/// or the end of the buffer if no newline follows.
pub open spec fn line_end(buf: Seq<char>, n: int) -> int
    decreases buf.len() - n when 0 <= n <= buf.len()
{
    if n >= buf.len() {
        buf.len() as int
    } else if buf[n] == '\n' {
        n + 1
    } else {
        line_end(buf, n + 1)
    }
}

/// The pending end that follows a revealed end of `r`: `r` plus the
/// character run, clamped to the buffer end, or the end of the line at `r`.
pub open spec fn next_pending(buf: Seq<char>, r: int, unit: RevealUnit) -> int {
    match unit {
        RevealUnit::Chars(cps) => {
            if buf.len() - r > cps {
                r + cps
            } else {
                buf.len() as int
            }
        },
        RevealUnit::Line => line_end(buf, r),
    }
}

/// How far into the buffer the step from `r` consumes. In a character run,
/// that is the pending end, extended past the following indentation when the
/// pending span is exactly one newline character. In line mode it is the end
/// of the line at `r`, terminator included.
pub open spec fn span_end(buf: Seq<char>, r: int, unit: RevealUnit) -> int {
    match unit {
        RevealUnit::Chars(_) => {
            let p = next_pending(buf, r, unit);
            if p == r + 1 && 0 <= r < buf.len() && buf[r] == '\n' {
                skip_indent(buf, p)
            } else {
                p
            }
        },
        RevealUnit::Line => line_end(buf, r),
    }
}

/// Where the text of the line at `r` ends: before its `"\r\n"` or `"\n"`
/// terminator, or at the buffer end for an unterminated final line.
pub open spec fn line_content_end(buf: Seq<char>, r: int) -> int {
    let e = line_end(buf, r);
    if e > r && buf[e - 1] == '\n' {
        if e - 1 > r && buf[e - 2] == '\r' {
            e - 2
        } else {
            e - 1
        }
    } else {
        e
    }
}

/// The text one step from `r` reveals. A character run reveals the consumed
/// slice of the buffer as it stands; line mode reveals the line's text with
/// its ending normalized: the `"\r\n"` or `"\n"` terminator stripped and
/// exactly one `'\n'` appended, also to an unterminated final line.
pub open spec fn step_span(buf: Seq<char>, r: int, unit: RevealUnit) -> Seq<char> {
    match unit {
        RevealUnit::Chars(_) => buf.subrange(r, span_end(buf, r, unit)),
        RevealUnit::Line => buf.subrange(r, line_content_end(buf, r)) + seq!['\n'],
    }
}

/// A cursor is well formed for a buffer when its revealed end lies inside
/// the buffer and its pending end is the one the reveal unit dictates.
pub open spec fn wf_cursor(buf: Seq<char>, c: Cursor, unit: RevealUnit) -> bool {
    &&& c.revealed_end <= buf.len()
    &&& c.pending_end == next_pending(buf, c.revealed_end as int, unit)
}

pub proof fn lemma_skip_indent_bounds(buf: Seq<char>, n: int)
    requires
        0 <= n <= buf.len(),
    ensures
        n <= skip_indent(buf, n) <= buf.len(),
    decreases buf.len() - n,
{
    if n < buf.len() && is_indent_char(buf[n]) {
        lemma_skip_indent_bounds(buf, n + 1);
    }
}

pub proof fn lemma_line_end_bounds(buf: Seq<char>, n: int)
    requires
        0 <= n <= buf.len(),
    ensures
        n <= line_end(buf, n) <= buf.len(),
        n < buf.len() ==> n + 1 <= line_end(buf, n),
    decreases buf.len() - n,
{
    if n < buf.len() && buf[n] != '\n' {
        lemma_line_end_bounds(buf, n + 1);
    }
}

pub proof fn lemma_next_pending_bounds(buf: Seq<char>, r: int, unit: RevealUnit)
    requires
        0 <= r <= buf.len(),
        unit.wf(),
    ensures
        r <= next_pending(buf, r, unit) <= buf.len(),
        r < buf.len() ==> r + 1 <= next_pending(buf, r, unit),
{
    if unit is Line {
        lemma_line_end_bounds(buf, r);
    }
}

pub proof fn lemma_span_end_bounds(buf: Seq<char>, r: int, unit: RevealUnit)
    requires
        0 <= r <= buf.len(),
        unit.wf(),
    ensures
        r <= span_end(buf, r, unit) <= buf.len(),
        r < buf.len() ==> r + 1 <= span_end(buf, r, unit),
{
    lemma_next_pending_bounds(buf, r, unit);
    let p = next_pending(buf, r, unit);
    if p == r + 1 && 0 <= r < buf.len() && buf[r] == '\n' {
        lemma_skip_indent_bounds(buf, p);
    }
}

/// Everything a playback pass starting at revealed end `r` reveals, in
/// order: the concatenation of the successive reveal spans until the buffer
/// is exhausted.
pub open spec fn reveal_all(buf: Seq<char>, r: int, unit: RevealUnit) -> Seq<char>
    decreases buf.len() - r when 0 <= r <= buf.len() && unit.wf() via reveal_all_decreases
{
    if r >= buf.len() {
        Seq::empty()
    } else {
        step_span(buf, r, unit) + reveal_all(buf, span_end(buf, r, unit), unit)
    }
}

#[via_fn]
proof fn reveal_all_decreases(buf: Seq<char>, r: int, unit: RevealUnit) {
    if 0 <= r < buf.len() && unit.wf() {
        lemma_span_end_bounds(buf, r, unit);
    }
}

/// In character mode the spans of one pass cover the rest of the buffer
/// exactly once, in order, with no gaps and no overlaps: their concatenation
/// is the suffix of the buffer that starts at the pass's revealed end.
pub proof fn lemma_reveal_all_is_suffix(buf: Seq<char>, r: int, unit: RevealUnit)
    requires
        0 <= r <= buf.len(),
        unit.wf(),
        unit is Chars,
    ensures
        reveal_all(buf, r, unit) == buf.subrange(r, buf.len() as int),
    decreases buf.len() - r,
{
    if r >= buf.len() {
        assert_seqs_equal!(reveal_all(buf, r, unit) == buf.subrange(r, buf.len() as int));
    } else {
        let e = span_end(buf, r, unit);
        lemma_span_end_bounds(buf, r, unit);
        lemma_reveal_all_is_suffix(buf, e, unit);
        assert_seqs_equal!(
            buf.subrange(r, e) + buf.subrange(e, buf.len() as int)
                == buf.subrange(r, buf.len() as int)
        );
    }
}

/// A character-mode pass from the start of the buffer reveals every
/// character exactly once, in the original order: the concatenation of its
/// spans reconstructs the buffer.
pub proof fn lemma_playback_reconstructs_buffer(buf: Seq<char>, unit: RevealUnit)
    requires
        unit.wf(),
        unit is Chars,
    ensures
        reveal_all(buf, 0, unit) == buf,
{
    lemma_reveal_all_is_suffix(buf, 0, unit);
    assert_seqs_equal!(buf.subrange(0, buf.len() as int) == buf);
}

/// Before the position `line_end` ends a line at, no character is a
/// newline: the newline it ends one past is the first at or after `n`.
pub proof fn lemma_line_has_no_interior_newline(buf: Seq<char>, n: int)
    requires
        0 <= n <= buf.len(),
    ensures
        forall|k: int| n <= k < line_end(buf, n) - 1 ==> buf[k] != '\n',
    decreases buf.len() - n,
{
    if n < buf.len() && buf[n] != '\n' {
        lemma_line_has_no_interior_newline(buf, n + 1);
    }
}

/// A line that ends before the buffer does ends one past a newline.
pub proof fn lemma_line_end_terminator(buf: Seq<char>, n: int)
    requires
        0 <= n <= buf.len(),
    ensures
        line_end(buf, n) < buf.len() ==> n + 1 <= line_end(buf, n) && buf[line_end(buf, n)
            - 1] == '\n',
    decreases buf.len() - n,
{
    if n < buf.len() && buf[n] != '\n' {
        lemma_line_end_terminator(buf, n + 1);
    }
}

/// Every line-mode span, the one of an unterminated final line included,
/// ends in exactly one newline: its last character is `'\n'` and no other
/// character of it is.
pub proof fn lemma_line_span_single_terminator(buf: Seq<char>, r: int)
    requires
        0 <= r < buf.len(),
    ensures
        step_span(buf, r, RevealUnit::Line).len() >= 1,
        step_span(buf, r, RevealUnit::Line).last() == '\n',
        forall|i: int|
            0 <= i < step_span(buf, r, RevealUnit::Line).len() - 1 ==> step_span(
                buf,
                r,
                RevealUnit::Line,
            )[i] != '\n',
{
    lemma_line_end_bounds(buf, r);
    lemma_line_has_no_interior_newline(buf, r);
    let e = line_end(buf, r);
    let ce = line_content_end(buf, r);
    let span = step_span(buf, r, RevealUnit::Line);
    assert(r <= ce <= e);
    assert(span.len() == ce - r + 1);
    assert forall|i: int| 0 <= i < span.len() - 1 implies span[i] != '\n' by {
        assert(span[i] == buf[r + i]);
        if r + i < e - 1 {
            assert(buf[r + i] != '\n');
        } else {
            assert(r + i == e - 1 && ce == e);
            assert(buf[e - 1] != '\n');
        }
    }
}

/// On a buffer already in normalized form — its last character a newline,
/// and no carriage return before any newline — a line-mode pass changes
/// nothing: the concatenation of its spans from `r` on is the buffer's
/// suffix, every character revealed exactly once and in order.
pub proof fn lemma_line_reveal_all_of_terminated(buf: Seq<char>, r: int)
    requires
        0 <= r <= buf.len(),
        buf.len() > 0,
        buf.last() == '\n',
        forall|i: int| 0 < i < buf.len() && #[trigger] buf[i] == '\n' ==> buf[i - 1] != '\r',
    ensures
        reveal_all(buf, r, RevealUnit::Line) == buf.subrange(r, buf.len() as int),
    decreases buf.len() - r,
{
    if r >= buf.len() {
        assert_seqs_equal!(
            reveal_all(buf, r, RevealUnit::Line) == buf.subrange(r, buf.len() as int)
        );
    } else {
        let e = line_end(buf, r);
        lemma_line_end_bounds(buf, r);
        lemma_line_end_terminator(buf, r);
        assert(buf[e - 1] == '\n');
        assert(line_content_end(buf, r) == e - 1);
        assert_seqs_equal!(step_span(buf, r, RevealUnit::Line) == buf.subrange(r, e));
        lemma_line_reveal_all_of_terminated(buf, e);
        assert_seqs_equal!(
            buf.subrange(r, e) + buf.subrange(e, buf.len() as int)
                == buf.subrange(r, buf.len() as int)
        );
    }
}

/// An empty buffer is exhausted from the outset: its initial cursor already
/// sits at the buffer end, and a pass over it reveals nothing.
pub proof fn lemma_empty_buffer_exhausted(unit: RevealUnit)
    requires
        unit.wf(),
    ensures
        next_pending(Seq::<char>::empty(), 0, unit) == 0,
        wf_cursor(Seq::<char>::empty(), Cursor { revealed_end: 0, pending_end: 0 }, unit),
        reveal_all(Seq::<char>::empty(), 0, unit) == Seq::<char>::empty(),
{
}

/// Computes `next_pending` on the live buffer.
fn compute_next_pending(buf: &Vec<char>, from: usize, unit: RevealUnit) -> (p: usize)
    requires
        from <= buf@.len(),
        unit.wf(),
    ensures
        p == next_pending(buf@, from as int, unit),
{
    match unit {
        RevealUnit::Chars(cps) => {
            let len = buf.len();
            if len - from > cps {
                from + cps
            } else {
                len
            }
        },
        RevealUnit::Line => {
            let len = buf.len();
            let mut j = from;
            while j < len && buf[j] != '\n'
                invariant
                    from <= j <= len,
                    len == buf@.len(),
                    line_end(buf@, from as int) == line_end(buf@, j as int),
                decreases len - j,
            {
                j = j + 1;
            }
            if j < len {
                j + 1
            } else {
                len
            }
        },
    }
}

/// The cursor a fresh file pass starts from: nothing revealed, one reveal
/// unit pending (clamped to the buffer end).
pub fn initial_cursor(buf: &Vec<char>, unit: RevealUnit) -> (c: Cursor)
    requires
        unit.wf(),
    ensures
        c.revealed_end == 0,
        wf_cursor(buf@, c, unit),
{
    let pending = compute_next_pending(buf, 0, unit);
    Cursor { revealed_end: 0, pending_end: pending }
}

/// Copies `buf[from..to)` into a fresh vector.
fn copy_slice(buf: &Vec<char>, from: usize, to: usize) -> (out: Vec<char>)
    requires
        from <= to <= buf@.len(),
    ensures
        out@ == buf@.subrange(from as int, to as int),
{
    let mut out: Vec<char> = Vec::new();
    let mut i = from;
    while i < to
        invariant
            from <= i <= to <= buf@.len(),
            out@ == buf@.subrange(from as int, i as int),
        decreases to - i,
    {
        out.push(buf[i]);
        proof {
            assert_seqs_equal!(
                buf@.subrange(from as int, i + 1)
                    == buf@.subrange(from as int, i as int) + seq![buf@[i as int]]
            );
        }
        i = i + 1;
    }
    out
}

/// One advancing keypress: reveals the next span and moves the cursor.
///
/// Returns `None` exactly when the pass is exhausted (everything revealed).
/// Otherwise a character run reveals the consumed slice of the buffer as it
/// stands — swallowing the following line's leading indentation when the
/// pending span is exactly one newline — and line mode reveals the line's
/// text with its ending normalized to a single `'\n'`. The advancer never
/// consumes past the buffer end and never re-reveals text.
pub fn advance(buf: &Vec<char>, c: Cursor, unit: RevealUnit) -> (step: Option<(Vec<char>, Cursor)>)
    requires
        wf_cursor(buf@, c, unit),
        unit.wf(),
    ensures
        match step {
            Some(out) => {
                &&& c.revealed_end < buf@.len()
                &&& out.1.revealed_end == span_end(buf@, c.revealed_end as int, unit)
                &&& out.1.revealed_end > c.revealed_end
                &&& out.0@ == step_span(buf@, c.revealed_end as int, unit)
                &&& out.0@.len() > 0
                &&& wf_cursor(buf@, out.1, unit)
            },
            None => c.revealed_end == buf@.len(),
        },
{
    let len = buf.len();
    if c.revealed_end >= len {
        return None;
    }
    proof {
        lemma_next_pending_bounds(buf@, c.revealed_end as int, unit);
    }
    match unit {
        RevealUnit::Chars(_) => {
            let mut e = c.pending_end;
            if c.pending_end == c.revealed_end + 1 && buf[c.revealed_end] == '\n' {
                while e < len && (buf[e] == ' ' || buf[e] == '\r' || buf[e] == '\t')
                    invariant
                        c.pending_end <= e <= len,
                        len == buf@.len(),
                        skip_indent(buf@, c.pending_end as int) == skip_indent(buf@, e as int),
                    decreases len - e,
                {
                    e = e + 1;
                }
            }
            proof {
                assert(e == span_end(buf@, c.revealed_end as int, unit));
                lemma_span_end_bounds(buf@, c.revealed_end as int, unit);
            }
            let span = copy_slice(buf, c.revealed_end, e);
            let pending = compute_next_pending(buf, e, unit);
            Some((span, Cursor { revealed_end: e, pending_end: pending }))
        },
        RevealUnit::Line => {
            let e = c.pending_end;
            proof {
                lemma_line_end_bounds(buf@, c.revealed_end as int);
            }
            let mut content_end = e;
            if content_end > c.revealed_end && buf[content_end - 1] == '\n' {
                content_end = content_end - 1;
                if content_end > c.revealed_end && buf[content_end - 1] == '\r' {
                    content_end = content_end - 1;
                }
            }
            proof {
                assert(content_end == line_content_end(buf@, c.revealed_end as int));
            }
            let mut span = copy_slice(buf, c.revealed_end, content_end);
            span.push('\n');
            proof {
                assert_seqs_equal!(
                    span@ == buf@.subrange(c.revealed_end as int, content_end as int)
                        + seq!['\n']
                );
            }
            let pending = compute_next_pending(buf, e, unit);
            Some((span, Cursor { revealed_end: e, pending_end: pending }))
        },
    }
}

} // verus!
