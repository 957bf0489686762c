use lhe::advancer::{advance, initial_cursor, Cursor, RevealUnit};

fn chars(s: &str) -> Vec<char> {
    s.chars().collect()
}

/// Runs one full pass and returns the revealed spans in order.
fn all_spans(buf: &Vec<char>, unit: RevealUnit) -> Vec<Vec<char>> {
    let mut spans = Vec::new();
    let mut cursor = initial_cursor(buf, unit);
    loop {
        match advance(buf, cursor, unit) {
            Some((span, next)) => {
                assert!(next.revealed_end > cursor.revealed_end);
                assert!(!span.is_empty());
                spans.push(span);
                cursor = next;
            }
            None => break,
        }
    }
    assert_eq!(cursor.revealed_end, buf.len());
    spans
}

#[test]
fn full_pass_reconstructs_buffer_char_mode() {
    let text = "fn main() {\n    let x = 1;\n}\n";
    for cps in [1usize, 2, 3, 7, 100] {
        let buf = chars(text);
        let spans = all_spans(&buf, RevealUnit::Chars(cps));
        let joined: Vec<char> = spans.into_iter().flatten().collect();
        assert_eq!(joined, buf);
    }
}

#[test]
fn line_mode_terminates_every_line_exactly_once() {
    // Line endings are normalized: "\r\n" becomes "\n", and the final
    // unterminated line is revealed with one newline appended.
    let buf = chars("one\ntwo\r\n\nno trailing newline");
    let spans = all_spans(&buf, RevealUnit::Line);
    assert_eq!(
        spans,
        vec![
            chars("one\n"),
            chars("two\n"),
            chars("\n"),
            chars("no trailing newline\n"),
        ]
    );
    for span in &spans {
        assert_eq!(span.iter().filter(|&&c| c == '\n').count(), 1);
        assert_eq!(*span.last().unwrap(), '\n');
    }
}

#[test]
fn full_pass_reconstructs_terminated_buffer_line_mode() {
    // A buffer already in normalized form is replayed unchanged.
    let buf = chars("one\ntwo\n\nthree\n");
    let spans = all_spans(&buf, RevealUnit::Line);
    let joined: Vec<char> = spans.into_iter().flatten().collect();
    assert_eq!(joined, buf);
}

#[test]
fn newline_span_swallows_indentation() {
    let buf = chars("\n   ABC");
    let spans = all_spans(&buf, RevealUnit::Chars(1));
    assert_eq!(spans[0], chars("\n   "));
    assert_eq!(spans[1], chars("A"));
    assert_eq!(spans[2], chars("B"));
    assert_eq!(spans[3], chars("C"));
}

#[test]
fn newline_span_swallows_indentation_then_wide_run() {
    // After the newline-led span, a three-character run reveals "ABC" whole.
    let buf = chars("x\n   ABC");
    let mut cursor = initial_cursor(&buf, RevealUnit::Chars(1));
    let (first, next) = advance(&buf, cursor, RevealUnit::Chars(1)).unwrap();
    assert_eq!(first, chars("x"));
    cursor = next;
    let (second, next) = advance(&buf, cursor, RevealUnit::Chars(1)).unwrap();
    assert_eq!(second, chars("\n   "));
    assert_eq!(next.revealed_end, 5);
    // The same landing on the newline, replayed with a cursor mid-buffer.
    let mid = Cursor { revealed_end: 1, pending_end: 2 };
    let (span, after) = advance(&buf, mid, RevealUnit::Chars(1)).unwrap();
    assert_eq!(span, chars("\n   "));
    assert_eq!(after.revealed_end, 5);
}

#[test]
fn line_mode_keeps_lines_whole() {
    // An empty line is one span of its own; the next line keeps its leading
    // whitespace and, lacking a terminator, gains exactly one newline.
    let buf = chars("\n   ABC");
    let spans = all_spans(&buf, RevealUnit::Line);
    assert_eq!(spans, vec![chars("\n"), chars("   ABC\n")]);
}

#[test]
fn indentation_skip_covers_tabs_and_carriage_returns() {
    let buf = chars("\n\r\t x");
    let spans = all_spans(&buf, RevealUnit::Chars(1));
    assert_eq!(spans[0], chars("\n\r\t "));
    assert_eq!(spans[1], chars("x"));
}

#[test]
fn trailing_newline_is_plain_span() {
    let buf = chars("x\n");
    let spans = all_spans(&buf, RevealUnit::Chars(1));
    assert_eq!(spans, vec![chars("x"), chars("\n")]);
}

#[test]
fn empty_buffer_is_immediately_exhausted() {
    let buf: Vec<char> = Vec::new();
    let cursor = initial_cursor(&buf, RevealUnit::Chars(1));
    assert_eq!(cursor.revealed_end, 0);
    assert_eq!(cursor.pending_end, 0);
    assert!(advance(&buf, cursor, RevealUnit::Chars(1)).is_none());
    let cursor = initial_cursor(&buf, RevealUnit::Line);
    assert!(advance(&buf, cursor, RevealUnit::Line).is_none());
}

#[test]
fn final_run_may_be_shorter_than_cps() {
    let buf = chars("abcde");
    let spans = all_spans(&buf, RevealUnit::Chars(3));
    assert_eq!(spans, vec![chars("abc"), chars("de")]);
}

#[test]
fn line_mode_reveals_whole_lines_with_newline() {
    let buf = chars("ab\ncd\n");
    let spans = all_spans(&buf, RevealUnit::Line);
    assert_eq!(spans, vec![chars("ab\n"), chars("cd\n")]);
}

#[test]
fn line_mode_normalizes_crlf_endings() {
    let buf = chars("ab\r\ncd");
    let spans = all_spans(&buf, RevealUnit::Line);
    assert_eq!(spans, vec![chars("ab\n"), chars("cd\n")]);
}

#[test]
fn line_mode_appends_newline_to_final_unterminated_line() {
    let buf = chars("ab");
    let spans = all_spans(&buf, RevealUnit::Line);
    assert_eq!(spans, vec![chars("ab\n")]);
}

#[test]
fn line_mode_strips_only_one_carriage_return() {
    // Only the "\r" of a "\r\n" ending is stripped; an interior or doubled
    // one stays in the line's text, as a line-oriented read leaves it.
    let buf = chars("a\rb\r\r\n");
    let spans = all_spans(&buf, RevealUnit::Line);
    assert_eq!(spans, vec![chars("a\rb\r\n")]);
}
