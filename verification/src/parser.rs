//! The tokenizer: one pass over the document's bytes, building the
//! syntax tree that the grammar specification says the document has.

use vstd::prelude::*;

use crate::coords::Point;
use crate::kinds::NodeKind;
use crate::scan::{
    err_instr, label_instr, lemma_point_at_mono, lemma_scan_all_wf, lemma_scan_instr_bounds,
    lemma_scan_instr_wf, num_instr, plain_instr, point_at, scan_all, scan_bits_end, scan_instr,
    NEWLINE_BYTE, SPACE_BYTE, TAB_BYTE,
};
use crate::tree::{tree_wf, InstrNode, PayloadNode, Span, SyntaxTree};

verus! {

/// One scanned instruction, the offset the next starts at, and the
/// point of that offset.
struct ScanStep {
    node: InstrNode,
    next: usize,
    row: usize,
    col: usize,
}

/// Walk the bytes from `from` to `to`, advancing a point known to sit
/// at `from`.
fn advance_point(s: &[u8], from: usize, to: usize, row0: usize, col0: usize) -> (r: (usize, usize))
    requires
        from <= to <= s@.len(),
        point_at(s@, from as int) == (Point { row: row0, column: col0 }),
        row0 <= from,
        col0 <= from,
    ensures
        point_at(s@, to as int) == (Point { row: r.0, column: r.1 }),
        r.0 <= to,
        r.1 <= to,
{
    let mut row: usize = row0;
    let mut col: usize = col0;
    let mut j: usize = from;
    while j < to
        invariant
            from <= j <= to <= s@.len(),
            point_at(s@, j as int) == (Point { row, column: col }),
            row <= j,
            col <= j,
        decreases to - j,
    {
        if s[j] == NEWLINE_BYTE {
            row = row + 1;
            col = 0;
        } else {
            col = col + 1;
        }
        j = j + 1;
    }
    (row, col)
}

/// The first offset at or after `start` that holds no binary digit.
fn find_bits_end(s: &[u8], start: usize) -> (r: usize)
    requires
        start <= s@.len(),
    ensures
        r as int == scan_bits_end(s@, start as int),
        start <= r <= s@.len(),
{
    let mut j: usize = start;
    while j < s.len() && (s[j] == SPACE_BYTE || s[j] == TAB_BYTE)
        invariant
            start <= j <= s@.len(),
            scan_bits_end(s@, start as int) == scan_bits_end(s@, j as int),
        decreases s@.len() - j,
    {
        j = j + 1;
    }
    j
}

/// Build the step for an instruction without an operand.
fn step_plain(s: &[u8], k: NodeKind, i: usize, j: usize, row: usize, col: usize) -> (r: ScanStep)
    requires
        i <= j <= s@.len(),
        point_at(s@, i as int) == (Point { row, column: col }),
        row <= i,
        col <= i,
    ensures
        r.node == plain_instr(s@, k, i as int, j as int),
        r.next == j,
        point_at(s@, r.next as int) == (Point { row: r.row, column: r.col }),
        r.row <= r.next,
        r.col <= r.next,
{
    let (r2, c2) = advance_point(s, i, j, row, col);
    ScanStep {
        node: InstrNode {
            kind: k,
            span: Span {
                start_byte: i,
                end_byte: j,
                start: Point { row, column: col },
                end: Point { row: r2, column: c2 },
            },
            payload: None,
        },
        next: j,
        row: r2,
        col: c2,
    }
}

/// Build the step for an error node one byte wide.
fn step_err(s: &[u8], i: usize, row: usize, col: usize) -> (r: ScanStep)
    requires
        i < s@.len(),
        point_at(s@, i as int) == (Point { row, column: col }),
        row <= i,
        col <= i,
    ensures
        (r.node, r.next as int) == err_instr(s@, i as int),
        point_at(s@, r.next as int) == (Point { row: r.row, column: r.col }),
        r.row <= r.next,
        r.col <= r.next,
{
    let n = s.len();
    let j = if i < n {
        i + 1
    } else {
        n
    };
    step_plain(s, NodeKind::Error, i, j, row, col)
}

/// Build the step for an instruction with a numeric operand starting
/// at `p`.
fn step_num(s: &[u8], k: NodeKind, i: usize, p: usize, row: usize, col: usize) -> (r: ScanStep)
    requires
        i < s@.len(),
        i <= p <= s@.len(),
        point_at(s@, i as int) == (Point { row, column: col }),
        row <= i,
        col <= i,
    ensures
        (r.node, r.next as int) == num_instr(s@, k, i as int, p as int),
        point_at(s@, r.next as int) == (Point { row: r.row, column: r.col }),
        r.row <= r.next,
        r.col <= r.next,
{
    if p < s.len() && (s[p] == SPACE_BYTE || s[p] == TAB_BYTE) {
        let e = find_bits_end(s, p + 1);
        if e < s.len() && s[e] == NEWLINE_BYTE {
            let (pr, pc) = advance_point(s, i, p, row, col);
            let (er, ec) = advance_point(s, p, e, pr, pc);
            let (fr, fc) = advance_point(s, e, e + 1, er, ec);
            ScanStep {
                node: InstrNode {
                    kind: k,
                    span: Span {
                        start_byte: i,
                        end_byte: e + 1,
                        start: Point { row, column: col },
                        end: Point { row: fr, column: fc },
                    },
                    payload: Some(
                        PayloadNode {
                            kind: NodeKind::Num,
                            span: Span {
                                start_byte: p,
                                end_byte: e,
                                start: Point { row: pr, column: pc },
                                end: Point { row: er, column: ec },
                            },
                        },
                    ),
                },
                next: e + 1,
                row: fr,
                col: fc,
            }
        } else {
            step_err(s, i, row, col)
        }
    } else {
        step_err(s, i, row, col)
    }
}

/// Build the step for an instruction with a label operand starting at
/// `p`.
fn step_label(s: &[u8], k: NodeKind, i: usize, p: usize, row: usize, col: usize) -> (r: ScanStep)
    requires
        i < s@.len(),
        i <= p <= s@.len(),
        point_at(s@, i as int) == (Point { row, column: col }),
        row <= i,
        col <= i,
    ensures
        (r.node, r.next as int) == label_instr(s@, k, i as int, p as int),
        point_at(s@, r.next as int) == (Point { row: r.row, column: r.col }),
        r.row <= r.next,
        r.col <= r.next,
{
    let e = find_bits_end(s, p);
    if e < s.len() && s[e] == NEWLINE_BYTE {
        let (pr, pc) = advance_point(s, i, p, row, col);
        let (er, ec) = advance_point(s, p, e, pr, pc);
        let (fr, fc) = advance_point(s, e, e + 1, er, ec);
        ScanStep {
            node: InstrNode {
                kind: k,
                span: Span {
                    start_byte: i,
                    end_byte: e + 1,
                    start: Point { row, column: col },
                    end: Point { row: fr, column: fc },
                },
                payload: Some(
                    PayloadNode {
                        kind: NodeKind::Label,
                        span: Span {
                            start_byte: p,
                            end_byte: e,
                            start: Point { row: pr, column: pc },
                            end: Point { row: er, column: ec },
                        },
                    },
                ),
            },
            next: e + 1,
            row: fr,
            col: fc,
        }
    } else {
        step_err(s, i, row, col)
    }
}

/// Scan the one instruction starting at offset `i`.
#[verifier::rlimit(100)]
fn scan_one(s: &[u8], i: usize, row: usize, col: usize) -> (r: ScanStep)
    requires
        i < s@.len(),
        point_at(s@, i as int) == (Point { row, column: col }),
        row <= i,
        col <= i,
    ensures
        (r.node, r.next as int) == scan_instr(s@, i as int),
        point_at(s@, r.next as int) == (Point { row: r.row, column: r.col }),
        r.row <= r.next,
        r.col <= r.next,
{
    let rem = s.len() - i;
    let b0 = s[i];
    if b0 == SPACE_BYTE {
        if rem < 2 {
            step_err(s, i, row, col)
        } else {
            let b1 = s[i + 1];
            if b1 == SPACE_BYTE {
                step_num(s, NodeKind::OpPush, i, i + 2, row, col)
            } else if b1 == NEWLINE_BYTE {
                if rem < 3 {
                    step_err(s, i, row, col)
                } else {
                    let b2 = s[i + 2];
                    if b2 == SPACE_BYTE {
                        step_plain(s, NodeKind::OpDup, i, i + 3, row, col)
                    } else if b2 == TAB_BYTE {
                        step_plain(s, NodeKind::OpSwap, i, i + 3, row, col)
                    } else if b2 == NEWLINE_BYTE {
                        step_plain(s, NodeKind::OpDrop, i, i + 3, row, col)
                    } else {
                        step_err(s, i, row, col)
                    }
                }
            } else if b1 == TAB_BYTE {
                if rem < 3 {
                    step_err(s, i, row, col)
                } else {
                    let b2 = s[i + 2];
                    if b2 == SPACE_BYTE {
                        step_num(s, NodeKind::OpCopy, i, i + 3, row, col)
                    } else if b2 == NEWLINE_BYTE {
                        step_num(s, NodeKind::OpSlide, i, i + 3, row, col)
                    } else {
                        step_err(s, i, row, col)
                    }
                }
            } else {
                step_err(s, i, row, col)
            }
        }
    } else if b0 == TAB_BYTE {
        if rem < 2 {
            step_err(s, i, row, col)
        } else {
            let b1 = s[i + 1];
            if b1 == SPACE_BYTE {
                if rem < 4 {
                    step_err(s, i, row, col)
                } else {
                    let b2 = s[i + 2];
                    let b3 = s[i + 3];
                    if b2 == SPACE_BYTE && b3 == SPACE_BYTE {
                        step_plain(s, NodeKind::OpAdd, i, i + 4, row, col)
                    } else if b2 == SPACE_BYTE && b3 == TAB_BYTE {
                        step_plain(s, NodeKind::OpSub, i, i + 4, row, col)
                    } else if b2 == SPACE_BYTE && b3 == NEWLINE_BYTE {
                        step_plain(s, NodeKind::OpMul, i, i + 4, row, col)
                    } else if b2 == TAB_BYTE && b3 == SPACE_BYTE {
                        step_plain(s, NodeKind::OpDiv, i, i + 4, row, col)
                    } else if b2 == TAB_BYTE && b3 == TAB_BYTE {
                        step_plain(s, NodeKind::OpMod, i, i + 4, row, col)
                    } else {
                        step_err(s, i, row, col)
                    }
                }
            } else if b1 == TAB_BYTE {
                if rem < 3 {
                    step_err(s, i, row, col)
                } else {
                    let b2 = s[i + 2];
                    if b2 == SPACE_BYTE {
                        step_plain(s, NodeKind::OpStore, i, i + 3, row, col)
                    } else if b2 == TAB_BYTE {
                        step_plain(s, NodeKind::OpRetrieve, i, i + 3, row, col)
                    } else {
                        step_err(s, i, row, col)
                    }
                }
            } else if b1 == NEWLINE_BYTE {
                if rem < 4 {
                    step_err(s, i, row, col)
                } else {
                    let b2 = s[i + 2];
                    let b3 = s[i + 3];
                    if b2 == SPACE_BYTE && b3 == SPACE_BYTE {
                        step_plain(s, NodeKind::OpOutChar, i, i + 4, row, col)
                    } else if b2 == SPACE_BYTE && b3 == TAB_BYTE {
                        step_plain(s, NodeKind::OpOutNum, i, i + 4, row, col)
                    } else if b2 == TAB_BYTE && b3 == SPACE_BYTE {
                        step_plain(s, NodeKind::OpReadChar, i, i + 4, row, col)
                    } else if b2 == TAB_BYTE && b3 == TAB_BYTE {
                        step_plain(s, NodeKind::OpReadNum, i, i + 4, row, col)
                    } else {
                        step_err(s, i, row, col)
                    }
                }
            } else {
                step_err(s, i, row, col)
            }
        }
    } else if b0 == NEWLINE_BYTE {
        if rem < 3 {
            step_err(s, i, row, col)
        } else {
            let b1 = s[i + 1];
            let b2 = s[i + 2];
            if b1 == SPACE_BYTE && b2 == SPACE_BYTE {
                step_label(s, NodeKind::OpMark, i, i + 3, row, col)
            } else if b1 == SPACE_BYTE && b2 == TAB_BYTE {
                step_label(s, NodeKind::OpCall, i, i + 3, row, col)
            } else if b1 == SPACE_BYTE && b2 == NEWLINE_BYTE {
                step_label(s, NodeKind::OpJump, i, i + 3, row, col)
            } else if b1 == TAB_BYTE && b2 == SPACE_BYTE {
                step_label(s, NodeKind::OpJumpZero, i, i + 3, row, col)
            } else if b1 == TAB_BYTE && b2 == TAB_BYTE {
                step_label(s, NodeKind::OpJumpNeg, i, i + 3, row, col)
            } else if b1 == TAB_BYTE && b2 == NEWLINE_BYTE {
                step_plain(s, NodeKind::OpReturn, i, i + 3, row, col)
            } else if b1 == NEWLINE_BYTE && b2 == NEWLINE_BYTE {
                step_plain(s, NodeKind::OpEnd, i, i + 3, row, col)
            } else {
                step_err(s, i, row, col)
            }
        }
    } else {
        step_err(s, i, row, col)
    }
}

/// Tokenize a document: always yields a tree, with error nodes where
/// the input is not well formed.  The tree is exactly what the grammar
/// specification says the bytes scan to, and it is well formed.
pub fn tokenize(text: &[u8]) -> (t: SyntaxTree)
    ensures
        t.instrs@ == scan_all(text@, 0),
        t.text_len == text@.len(),
        t.root_end == point_at(text@, text@.len() as int),
        tree_wf(t),
{
    let ghost s = text@;
    let mut instrs: Vec<InstrNode> = Vec::new();
    let mut i: usize = 0;
    let mut row: usize = 0;
    let mut col: usize = 0;
    while i < text.len()
        invariant
            i <= s.len(),
            s == text@,
            point_at(s, i as int) == (Point { row, column: col }),
            row <= i,
            col <= i,
            scan_all(s, 0) == instrs@ + scan_all(s, i as int),
        decreases s.len() - i,
    {
        let step = scan_one(text, i, row, col);
        proof {
            lemma_scan_instr_bounds(s, i as int);
            assert(scan_all(s, i as int) == seq![scan_instr(s, i as int).0] + scan_all(
                s,
                scan_instr(s, i as int).1,
            ));
            assert(instrs@ + (seq![step.node] + scan_all(s, step.next as int)) =~= (instrs@
                + seq![step.node]) + scan_all(s, step.next as int));
            assert(instrs@.push(step.node) =~= instrs@ + seq![step.node]);
        }
        instrs.push(step.node);
        i = step.next;
        row = step.row;
        col = step.col;
    }
    proof {
        assert(scan_all(s, i as int) =~= Seq::<InstrNode>::empty());
        assert(instrs@ + Seq::<InstrNode>::empty() =~= instrs@);
    }
    let t = SyntaxTree { text_len: text.len(), root_end: Point { row, column: col }, instrs };
    proof {
        lemma_scan_all_wf(s, 0);
        assert forall|k: int| 0 <= k < t.instrs@.len() implies (
        #[trigger] t.instrs@[k]).span.end_byte <= t.text_len && crate::coords::point_le(
            t.instrs@[k].span.end,
            t.root_end,
        ) && crate::coords::point_le(Point { row: 0, column: 0 }, t.instrs@[k].span.start) by {
            lemma_point_at_mono(s, t.instrs@[k].span.end_byte as int, s.len() as int);
        }
        assert forall|k: int, l: int| 0 <= k < l < t.instrs@.len() implies (
        #[trigger] t.instrs@[k]).span.end_byte <= (#[trigger] t.instrs@[l]).span.start_byte
            && crate::coords::point_le(t.instrs@[k].span.end, t.instrs@[l].span.start) by {
            lemma_point_at_mono(
                s,
                t.instrs@[k].span.end_byte as int,
                t.instrs@[l].span.start_byte as int,
            );
        }
    }
    t
}

} // verus!
