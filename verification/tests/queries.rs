//! End-to-end checks of the query handlers on concrete documents.
//!
//! Sources are written as byte vectors: 32 is a space, 9 a tab, 10 a
//! newline.

use whitespace_lsp::coords::{Point, Position};
use whitespace_lsp::queries::{
    document_highlights, hover, inlay_hints, HighlightKind, QueryError,
};

const S: u8 = 32;
const T: u8 = 9;
const L: u8 = 10;

#[test]
fn hover_on_num_shows_decimal_value() {
    // Push the positive number with digits 1 1: three.
    let text = vec![S, S, S, T, T, L, L];
    let r = hover(&text, Point { row: 0, column: 2 }).unwrap().unwrap();
    assert_eq!(r.contents, "3");
    assert_eq!(r.range.start, Position { line: 0, character: 2 });
    assert_eq!(r.range.end, Position { line: 0, character: 5 });
}

#[test]
fn hover_on_empty_file_yields_nothing() {
    let text: Vec<u8> = vec![];
    let r = hover(&text, Point { row: 0, column: 0 }).unwrap();
    assert!(r.is_none());
}

#[test]
fn hover_on_opcode_character_names_the_instruction() {
    let text = vec![S, S, S, T, T, L];
    // The first byte is an opcode character: a separator token, so the
    // classifier walks up to the instruction.
    let r = hover(&text, Point { row: 0, column: 0 }).unwrap().unwrap();
    assert_eq!(r.contents, "op_push");
    let r = hover(&text, Point { row: 0, column: 1 }).unwrap().unwrap();
    assert_eq!(r.contents, "op_push");
}

#[test]
fn hover_on_negative_num() {
    // Sign tab, digits 1 0 1: minus five.
    let text = vec![S, S, T, T, S, T, L];
    let r = hover(&text, Point { row: 0, column: 3 }).unwrap().unwrap();
    assert_eq!(r.contents, "-5");
}

#[test]
fn hover_on_signed_zero_shows_bare_zero() {
    // Sign tab, no digits: zero, rendered without a sign.
    let text = vec![S, S, T, L];
    let r = hover(&text, Point { row: 0, column: 2 }).unwrap().unwrap();
    assert_eq!(r.contents, "0");
}

#[test]
fn hover_renders_exact_decimal() {
    // 1234 in binary: 1 0 0 1 1 0 1 0 0 1 0.
    let bits = [T, S, S, T, T, S, T, S, S, T, S];
    let mut text = vec![S, S, S];
    text.extend_from_slice(&bits);
    text.push(L);
    let r = hover(&text, Point { row: 0, column: 4 }).unwrap().unwrap();
    assert_eq!(r.contents, "1234");
}

#[test]
fn hover_renders_largest_word() {
    let mut text = vec![S, S, S];
    text.extend(std::iter::repeat(T).take(64));
    text.push(L);
    let r = hover(&text, Point { row: 0, column: 4 }).unwrap().unwrap();
    assert_eq!(r.contents, "18446744073709551615");
}

#[test]
fn hover_fails_on_number_too_large() {
    let mut text = vec![S, S, S];
    text.extend(std::iter::repeat(T).take(65));
    text.push(L);
    let r = hover(&text, Point { row: 0, column: 4 });
    assert_eq!(r, Err(QueryError::NumTooLarge));
}

#[test]
fn hover_on_label_shows_debug_form() {
    // Mark with label digits 1 0.
    let text = vec![L, S, S, T, S, L];
    let r = hover(&text, Point { row: 1, column: 2 }).unwrap().unwrap();
    assert_eq!(r.contents, "Label(TS)");
}

#[test]
fn hover_on_stray_byte_names_error() {
    let text = vec![b'x'];
    let r = hover(&text, Point { row: 0, column: 0 }).unwrap().unwrap();
    assert_eq!(r.contents, "error");
}

#[test]
fn point_maps_to_position_verbatim() {
    let p = whitespace_lsp::coords::point_to_position(Point { row: 3, column: 7 });
    assert_eq!(p, Position { line: 3, character: 7 });
}

#[test]
fn three_instructions_give_three_highlights() {
    // Push three, dup, then a stray byte: instruction, instruction,
    // error stretch.
    let mut text = vec![S, S, S, T, T, L];
    text.extend_from_slice(&[S, L, S]);
    text.push(b'?');
    let hs = document_highlights(&text);
    assert_eq!(hs.len(), 3);
    assert_eq!(hs[0].kind, HighlightKind::Read);
    assert_eq!(hs[1].kind, HighlightKind::Read);
    assert_eq!(hs[2].kind, HighlightKind::Text);
    // Source order, no overlap.
    for w in hs.windows(2) {
        let (a, b) = (&w[0], &w[1]);
        assert!(
            a.range.end.line < b.range.start.line
                || (a.range.end.line == b.range.start.line
                    && a.range.end.character <= b.range.start.character)
        );
    }
    assert_eq!(hs[0].range.start, Position { line: 0, character: 0 });
    assert_eq!(hs[0].range.end, Position { line: 1, character: 0 });
}

#[test]
fn highlights_of_empty_file_are_empty() {
    let text: Vec<u8> = vec![];
    assert!(document_highlights(&text).is_empty());
}

#[test]
fn flow_control_hints_in_order() {
    // Mark T, call T, jump T, end.
    let mut text = Vec::new();
    text.extend_from_slice(&[L, S, S, T, L]); // mark
    text.extend_from_slice(&[L, S, T, T, L]); // call
    text.extend_from_slice(&[L, S, L, T, L]); // jump
    text.extend_from_slice(&[L, L, L]); // end
    let hints = inlay_hints(&text);
    assert_eq!(hints.len(), 4);
    assert_eq!(hints[0].label, "mark T");
    assert_eq!(hints[1].label, "call T");
    assert_eq!(hints[2].label, "jump T");
    assert_eq!(hints[3].label, "end");
    for h in &hints {
        assert!(!h.label.contains("label "));
    }
    assert_eq!(hints[0].position, Position { line: 2, character: 0 });
    assert_eq!(hints[1].position, Position { line: 4, character: 0 });
    assert_eq!(hints[2].position, Position { line: 7, character: 0 });
    assert_eq!(hints[3].position, Position { line: 10, character: 0 });
}

#[test]
fn hint_count_matches_flow_ops_only() {
    // Push three (no hint), then return and end (one hint each).
    let mut text = vec![S, S, S, T, T, L];
    text.extend_from_slice(&[L, T, L]); // return
    text.extend_from_slice(&[L, L, L]); // end
    let hints = inlay_hints(&text);
    assert_eq!(hints.len(), 2);
    assert_eq!(hints[0].label, "return");
    assert_eq!(hints[1].label, "end");
}

#[test]
fn hint_for_empty_label() {
    // Mark with no label digits.
    let text = vec![L, S, S, L];
    let hints = inlay_hints(&text);
    assert_eq!(hints.len(), 1);
    assert_eq!(hints[0].label, "mark ");
    assert!(!hints[0].label.contains("label "));
}

#[test]
fn conditional_jumps_render_without_marker() {
    let mut text = Vec::new();
    text.extend_from_slice(&[L, T, S, T, L]); // jump-zero T
    text.extend_from_slice(&[L, T, T, S, L]); // jump-neg S
    let hints = inlay_hints(&text);
    assert_eq!(hints.len(), 2);
    assert_eq!(hints[0].label, "jump-zero T");
    assert_eq!(hints[1].label, "jump-neg S");
    for h in &hints {
        assert!(!h.label.contains("label "));
    }
}
