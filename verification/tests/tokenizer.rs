//! Checks of the tokenizer itself: the instruction families, spans,
//! and error recovery.

use whitespace_lsp::coords::Point;
use whitespace_lsp::kinds::NodeKind;
use whitespace_lsp::parser::tokenize;

const S: u8 = 32;
const T: u8 = 9;
const L: u8 = 10;

#[test]
fn every_family_is_recognized() {
    // dup, add, store, out-num, return: one instruction per family.
    let mut text = Vec::new();
    text.extend_from_slice(&[S, L, S]); // dup
    text.extend_from_slice(&[T, S, S, S]); // add
    text.extend_from_slice(&[T, T, S]); // store
    text.extend_from_slice(&[T, L, S, T]); // out-num
    text.extend_from_slice(&[L, T, L]); // return
    let t = tokenize(&text);
    let kinds: Vec<NodeKind> = t.instrs.iter().map(|n| n.kind).collect();
    assert_eq!(
        kinds,
        vec![
            NodeKind::OpDup,
            NodeKind::OpAdd,
            NodeKind::OpStore,
            NodeKind::OpOutNum,
            NodeKind::OpReturn,
        ]
    );
}

#[test]
fn spans_partition_the_text() {
    let mut text = Vec::new();
    text.extend_from_slice(&[S, S, S, T, L]); // push one
    text.extend_from_slice(&[T, S, S, T]); // sub
    text.extend_from_slice(&[L, L, L]); // end
    let t = tokenize(&text);
    assert_eq!(t.text_len, text.len());
    let mut at = 0;
    for n in &t.instrs {
        assert_eq!(n.span.start_byte, at);
        assert!(n.span.start_byte < n.span.end_byte);
        at = n.span.end_byte;
    }
    assert_eq!(at, text.len());
}

#[test]
fn incomplete_instruction_yields_error_and_rescan() {
    // A lone space cannot open an instruction: one error byte.
    let t = tokenize(&[S]);
    assert_eq!(t.instrs.len(), 1);
    assert_eq!(t.instrs[0].kind, NodeKind::Error);
    assert_eq!(t.instrs[0].span.end_byte, 1);
    // A push cut off before its newline: the opener becomes an error
    // byte and the rest is rescanned.
    let t = tokenize(&[S, S, S, T]);
    assert_eq!(t.instrs[0].kind, NodeKind::Error);
}

#[test]
fn operand_nodes_sit_inside_their_instruction() {
    let text = vec![L, S, T, T, S, T, L]; // call with label 1 0 1
    let t = tokenize(&text);
    assert_eq!(t.instrs.len(), 1);
    let n = &t.instrs[0];
    assert_eq!(n.kind, NodeKind::OpCall);
    let pl = n.payload.as_ref().unwrap();
    assert_eq!(pl.kind, NodeKind::Label);
    assert_eq!(pl.span.start_byte, 3);
    assert_eq!(pl.span.end_byte, 6);
    assert!(n.span.start_byte <= pl.span.start_byte);
    assert!(pl.span.end_byte <= n.span.end_byte);
}

#[test]
fn points_count_rows_and_byte_columns() {
    // end: three newlines, so the root ends on row three.
    let t = tokenize(&[L, L, L]);
    assert_eq!(t.root_end, Point { row: 3, column: 0 });
    let root = t.root_span();
    assert_eq!(root.start, Point { row: 0, column: 0 });
    assert_eq!(root.end, Point { row: 3, column: 0 });
    assert_eq!(root.end_byte, 3);
    // push one: no newline before the terminator.
    let t = tokenize(&[S, S, S, T, L]);
    assert_eq!(t.instrs[0].span.start, Point { row: 0, column: 0 });
    assert_eq!(t.instrs[0].span.end, Point { row: 1, column: 0 });
    let pl = t.instrs[0].payload.as_ref().unwrap();
    assert_eq!(pl.span.start, Point { row: 0, column: 2 });
    assert_eq!(pl.span.end, Point { row: 0, column: 4 });
}
