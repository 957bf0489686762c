use vstd::prelude::*;
use crate::advancer::{advance, span_end, step_span, wf_cursor, Cursor, RevealUnit};

verus! {

/// A keypress event as the playback loop sees it: a character key, the
/// cancel key, a terminal resize signal, or anything else.
#[derive(Clone, Copy, Debug, PartialEq, Eq, Structural)]
pub enum KeyEvent {
    Character(char),
    CancelKey,
    ResizeSignal,
    Other,
}

/// What one keypress did to a playing file: the cursor afterwards, the span
/// it revealed (if any), and whether the terminal must re-lay itself out.
pub struct StepOutcome {
    pub cursor: Cursor,
    pub span: Option<Vec<char>>,
    pub relayout: bool,
}

/// Dispatches one keypress event during playback.
///
/// Only a character key advances the cursor and reveals a span. The cancel
/// key and unrecognized events are swallowed: cursor untouched, nothing
/// revealed. A resize signal is likewise swallowed but asks, exactly once,
/// for a surface re-layout.
pub fn playback_step(buf: &Vec<char>, c: Cursor, unit: RevealUnit, ev: KeyEvent) -> (out:
    StepOutcome)
    requires
        wf_cursor(buf@, c, unit),
        unit.wf(),
    ensures
        wf_cursor(buf@, out.cursor, unit),
        out.relayout == (ev is ResizeSignal),
        !(ev is Character) ==> out.cursor == c && out.span is None,
        ev is Character ==> match out.span {
            Some(span) => {
                &&& c.revealed_end < buf@.len()
                &&& out.cursor.revealed_end == span_end(buf@, c.revealed_end as int, unit)
                &&& out.cursor.revealed_end > c.revealed_end
                &&& span@ == step_span(buf@, c.revealed_end as int, unit)
            },
            None => c.revealed_end == buf@.len() && out.cursor == c,
        },
{
    match ev {
        KeyEvent::Character(_) => {
            match advance(buf, c, unit) {
                Some((span, next)) => StepOutcome {
                    cursor: next,
                    span: Some(span),
                    relayout: false,
                },
                None => StepOutcome { cursor: c, span: None, relayout: false },
            }
        },
        KeyEvent::CancelKey => StepOutcome { cursor: c, span: None, relayout: false },
        KeyEvent::ResizeSignal => StepOutcome { cursor: c, span: None, relayout: true },
        KeyEvent::Other => StepOutcome { cursor: c, span: None, relayout: false },
    }
}

} // verus!
