//! The grammar of the whitespace language, written down as a
//! specification: what syntax tree a given byte sequence tokenizes to.
//!
//! Every instruction starts with one to four opcode characters.  A
//! space opens the stack family, a tab opens the arithmetic, heap and
//! input/output families, a newline opens the flow-control family.
//! A numeric operand is a sign character followed by binary digits
//! (space for zero, tab for one) and a terminating newline; a label
//! operand is binary digits and a terminating newline.  A byte where
//! no instruction can start, or an instruction cut short, yields an
//! error node one byte wide, and scanning resumes after it.

use vstd::prelude::*;

use crate::coords::{point_le, point_within, Point};
use crate::kinds::NodeKind;
use crate::tree::{instr_wf, InstrNode, PayloadNode, Span};

verus! {

/// The space character, in bytes.
pub const SPACE_BYTE: u8 = 32;

/// The tab character, in bytes.
pub const TAB_BYTE: u8 = 9;

/// The newline character, in bytes.
pub const NEWLINE_BYTE: u8 = 10;

/// The point reached after walking the first `i` bytes of `s`: a
/// newline closes a row, every other byte widens the current column.
pub open spec fn point_at(s: Seq<u8>, i: int) -> Point
    decreases i,
{
    if i <= 0 {
        Point { row: 0, column: 0 }
    } else {
        let p = point_at(s, i - 1);
        if s[i - 1] == NEWLINE_BYTE {
            Point { row: (p.row + 1) as usize, column: 0 }
        } else {
            Point { row: p.row, column: (p.column + 1) as usize }
        }
    }
}

/// Rows and columns never outgrow the byte offset.
pub proof fn lemma_point_at_bounds(s: Seq<u8>, i: int)
    requires
        0 <= i,
    ensures
        point_at(s, i).row <= i,
        point_at(s, i).column <= i,
    decreases i,
{
    if i > 0 {
        lemma_point_at_bounds(s, i - 1);
    }
}

/// Walking farther never moves the point back.
pub proof fn lemma_point_at_mono(s: Seq<u8>, i: int, j: int)
    requires
        0 <= i <= j <= usize::MAX,
    ensures
        point_le(point_at(s, i), point_at(s, j)),
    decreases j - i,
{
    if i < j {
        lemma_point_at_bounds(s, j - 1);
        lemma_point_at_mono(s, i, j - 1);
    }
}

/// The end of a run of binary digits: the first offset at or after `i`
/// holding neither a space nor a tab, or the end of the input.
pub open spec fn scan_bits_end(s: Seq<u8>, i: int) -> int
    decreases s.len() - i,
{
    if i < 0 || i >= s.len() {
        s.len() as int
    } else if s[i] == SPACE_BYTE || s[i] == TAB_BYTE {
        scan_bits_end(s, i + 1)
    } else {
        i
    }
}

/// The digit run starts where the scan started, ends within the input,
/// holds only spaces and tabs, and stops just before something else.
pub proof fn lemma_scan_bits_end(s: Seq<u8>, i: int)
    requires
        0 <= i <= s.len(),
    ensures
        i <= scan_bits_end(s, i) <= s.len(),
        forall|j: int|
            i <= j < scan_bits_end(s, i) ==> (s[j] == SPACE_BYTE || s[j] == TAB_BYTE),
        scan_bits_end(s, i) < s.len() ==> !(s[scan_bits_end(s, i)] == SPACE_BYTE || s[
            scan_bits_end(s, i)
        ] == TAB_BYTE),
    decreases s.len() - i,
{
    if i < s.len() && (s[i] == SPACE_BYTE || s[i] == TAB_BYTE) {
        lemma_scan_bits_end(s, i + 1);
    }
}

/// The span from byte `i` to byte `j`, with its points.
pub open spec fn spec_span(s: Seq<u8>, i: int, j: int) -> Span {
    Span {
        start_byte: i as usize,
        end_byte: j as usize,
        start: point_at(s, i),
        end: point_at(s, j),
    }
}

/// An instruction without an operand, spanning bytes `i` to `j`.
pub open spec fn plain_instr(s: Seq<u8>, k: NodeKind, i: int, j: int) -> InstrNode {
    InstrNode { kind: k, span: spec_span(s, i, j), payload: None }
}

/// An error node one byte wide, and the offset to resume at.
pub open spec fn err_instr(s: Seq<u8>, i: int) -> (InstrNode, int) {
    (plain_instr(s, NodeKind::Error, i, i + 1), i + 1)
}

/// An instruction of kind `k` starting at `i` whose numeric operand
/// starts at `p`: a sign character, binary digits, and a terminating
/// newline.  The operand node spans the sign and the digits; the
/// instruction spans up to and including the newline.
pub open spec fn num_instr(s: Seq<u8>, k: NodeKind, i: int, p: int) -> (InstrNode, int) {
    if p < s.len() && (s[p] == SPACE_BYTE || s[p] == TAB_BYTE) {
        let e = scan_bits_end(s, p + 1);
        if e < s.len() && s[e] == NEWLINE_BYTE {
            (
                InstrNode {
                    kind: k,
                    span: spec_span(s, i, e + 1),
                    payload: Some(PayloadNode { kind: NodeKind::Num, span: spec_span(s, p, e) }),
                },
                e + 1,
            )
        } else {
            err_instr(s, i)
        }
    } else {
        err_instr(s, i)
    }
}

/// An instruction of kind `k` starting at `i` whose label operand
/// starts at `p`: binary digits (possibly none) and a terminating
/// newline.  The operand node spans the digits alone.
pub open spec fn label_instr(s: Seq<u8>, k: NodeKind, i: int, p: int) -> (InstrNode, int) {
    let e = scan_bits_end(s, p);
    if e < s.len() && s[e] == NEWLINE_BYTE {
        (
            InstrNode {
                kind: k,
                span: spec_span(s, i, e + 1),
                payload: Some(PayloadNode { kind: NodeKind::Label, span: spec_span(s, p, e) }),
            },
            e + 1,
        )
    } else {
        err_instr(s, i)
    }
}

/// The stack family: instructions opened by a space.
pub open spec fn scan_stack(s: Seq<u8>, i: int) -> (InstrNode, int) {
    if i + 1 >= s.len() {
        err_instr(s, i)
    } else if s[i + 1] == SPACE_BYTE {
        num_instr(s, NodeKind::OpPush, i, i + 2)
    } else if s[i + 1] == NEWLINE_BYTE {
        if i + 2 >= s.len() {
            err_instr(s, i)
        } else if s[i + 2] == SPACE_BYTE {
            (plain_instr(s, NodeKind::OpDup, i, i + 3), i + 3)
        } else if s[i + 2] == TAB_BYTE {
            (plain_instr(s, NodeKind::OpSwap, i, i + 3), i + 3)
        } else if s[i + 2] == NEWLINE_BYTE {
            (plain_instr(s, NodeKind::OpDrop, i, i + 3), i + 3)
        } else {
            err_instr(s, i)
        }
    } else if s[i + 1] == TAB_BYTE {
        if i + 2 >= s.len() {
            err_instr(s, i)
        } else if s[i + 2] == SPACE_BYTE {
            num_instr(s, NodeKind::OpCopy, i, i + 3)
        } else if s[i + 2] == NEWLINE_BYTE {
            num_instr(s, NodeKind::OpSlide, i, i + 3)
        } else {
            err_instr(s, i)
        }
    } else {
        err_instr(s, i)
    }
}

/// The arithmetic, heap and input/output families: instructions
/// opened by a tab.
pub open spec fn scan_tab(s: Seq<u8>, i: int) -> (InstrNode, int) {
    if i + 1 >= s.len() {
        err_instr(s, i)
    } else if s[i + 1] == SPACE_BYTE {
        if i + 3 >= s.len() {
            err_instr(s, i)
        } else if s[i + 2] == SPACE_BYTE && s[i + 3] == SPACE_BYTE {
            (plain_instr(s, NodeKind::OpAdd, i, i + 4), i + 4)
        } else if s[i + 2] == SPACE_BYTE && s[i + 3] == TAB_BYTE {
            (plain_instr(s, NodeKind::OpSub, i, i + 4), i + 4)
        } else if s[i + 2] == SPACE_BYTE && s[i + 3] == NEWLINE_BYTE {
            (plain_instr(s, NodeKind::OpMul, i, i + 4), i + 4)
        } else if s[i + 2] == TAB_BYTE && s[i + 3] == SPACE_BYTE {
            (plain_instr(s, NodeKind::OpDiv, i, i + 4), i + 4)
        } else if s[i + 2] == TAB_BYTE && s[i + 3] == TAB_BYTE {
            (plain_instr(s, NodeKind::OpMod, i, i + 4), i + 4)
        } else {
            err_instr(s, i)
        }
    } else if s[i + 1] == TAB_BYTE {
        if i + 2 >= s.len() {
            err_instr(s, i)
        } else if s[i + 2] == SPACE_BYTE {
            (plain_instr(s, NodeKind::OpStore, i, i + 3), i + 3)
        } else if s[i + 2] == TAB_BYTE {
            (plain_instr(s, NodeKind::OpRetrieve, i, i + 3), i + 3)
        } else {
            err_instr(s, i)
        }
    } else if s[i + 1] == NEWLINE_BYTE {
        if i + 3 >= s.len() {
            err_instr(s, i)
        } else if s[i + 2] == SPACE_BYTE && s[i + 3] == SPACE_BYTE {
            (plain_instr(s, NodeKind::OpOutChar, i, i + 4), i + 4)
        } else if s[i + 2] == SPACE_BYTE && s[i + 3] == TAB_BYTE {
            (plain_instr(s, NodeKind::OpOutNum, i, i + 4), i + 4)
        } else if s[i + 2] == TAB_BYTE && s[i + 3] == SPACE_BYTE {
            (plain_instr(s, NodeKind::OpReadChar, i, i + 4), i + 4)
        } else if s[i + 2] == TAB_BYTE && s[i + 3] == TAB_BYTE {
            (plain_instr(s, NodeKind::OpReadNum, i, i + 4), i + 4)
        } else {
            err_instr(s, i)
        }
    } else {
        err_instr(s, i)
    }
}

/// The flow-control family: instructions opened by a newline.
pub open spec fn scan_flow(s: Seq<u8>, i: int) -> (InstrNode, int) {
    if i + 2 >= s.len() {
        err_instr(s, i)
    } else if s[i + 1] == SPACE_BYTE && s[i + 2] == SPACE_BYTE {
        label_instr(s, NodeKind::OpMark, i, i + 3)
    } else if s[i + 1] == SPACE_BYTE && s[i + 2] == TAB_BYTE {
        label_instr(s, NodeKind::OpCall, i, i + 3)
    } else if s[i + 1] == SPACE_BYTE && s[i + 2] == NEWLINE_BYTE {
        label_instr(s, NodeKind::OpJump, i, i + 3)
    } else if s[i + 1] == TAB_BYTE && s[i + 2] == SPACE_BYTE {
        label_instr(s, NodeKind::OpJumpZero, i, i + 3)
    } else if s[i + 1] == TAB_BYTE && s[i + 2] == TAB_BYTE {
        label_instr(s, NodeKind::OpJumpNeg, i, i + 3)
    } else if s[i + 1] == TAB_BYTE && s[i + 2] == NEWLINE_BYTE {
        (plain_instr(s, NodeKind::OpReturn, i, i + 3), i + 3)
    } else if s[i + 1] == NEWLINE_BYTE && s[i + 2] == NEWLINE_BYTE {
        (plain_instr(s, NodeKind::OpEnd, i, i + 3), i + 3)
    } else {
        err_instr(s, i)
    }
}

/// One instruction scanned at offset `i`: the node, and the offset the
/// next scan starts at.
pub open spec fn scan_instr(s: Seq<u8>, i: int) -> (InstrNode, int)
    recommends
        0 <= i < s.len(),
{
    if s[i] == SPACE_BYTE {
        scan_stack(s, i)
    } else if s[i] == TAB_BYTE {
        scan_tab(s, i)
    } else if s[i] == NEWLINE_BYTE {
        scan_flow(s, i)
    } else {
        err_instr(s, i)
    }
}

/// Scanning one instruction consumes at least one byte and never runs
/// past the end.
pub proof fn lemma_scan_instr_bounds(s: Seq<u8>, i: int)
    requires
        0 <= i < s.len(),
    ensures
        i < scan_instr(s, i).1 <= s.len(),
{
    if i + 3 <= s.len() {
        lemma_scan_bits_end(s, i + 3);
    }
    if i + 4 <= s.len() {
        lemma_scan_bits_end(s, i + 4);
    }
}

/// Everything scanning one instruction promises about the node itself:
/// it is well formed, and its span runs from the scan's start to the
/// offset the next scan starts at, with the points of those bytes.
pub proof fn lemma_scan_instr_wf(s: Seq<u8>, i: int)
    requires
        0 <= i < s.len() <= usize::MAX,
    ensures
        instr_wf(scan_instr(s, i).0),
        scan_instr(s, i).0.span.start_byte == i,
        scan_instr(s, i).0.span.end_byte == scan_instr(s, i).1,
        scan_instr(s, i).0.span.start == point_at(s, i),
        scan_instr(s, i).0.span.end == point_at(s, scan_instr(s, i).1),
{
    lemma_scan_instr_bounds(s, i);
    if i + 3 <= s.len() {
        lemma_scan_bits_end(s, i + 3);
    }
    if i + 4 <= s.len() {
        lemma_scan_bits_end(s, i + 4);
    }
    let j = scan_instr(s, i).1;
    lemma_point_at_mono(s, i, j);
    let n = scan_instr(s, i).0;
    match n.payload {
        Some(p) => {
            lemma_point_at_mono(s, i, p.span.start_byte as int);
            lemma_point_at_mono(s, p.span.start_byte as int, p.span.end_byte as int);
            lemma_point_at_mono(s, p.span.end_byte as int, j);
        },
        None => {},
    }
}

/// A whole-document scan covers the document: any point from the
/// scan's start to the document's last point lies within some node.
pub proof fn lemma_scan_covers(s: Seq<u8>, i: int, p: Point)
    requires
        0 <= i < s.len() <= usize::MAX,
        point_le(point_at(s, i), p),
        point_le(p, point_at(s, s.len() as int)),
    ensures
        exists|k: int|
            0 <= k < scan_all(s, i).len() && point_within(
                p,
                (#[trigger] scan_all(s, i)[k]).span.start,
                scan_all(s, i)[k].span.end,
            ),
    decreases s.len() - i,
{
    lemma_scan_instr_bounds(s, i);
    lemma_scan_instr_wf(s, i);
    let j = scan_instr(s, i).1;
    let ns = scan_all(s, i);
    assert(ns == seq![scan_instr(s, i).0] + scan_all(s, j));
    assert(ns[0] == scan_instr(s, i).0);
    if point_le(p, point_at(s, j)) {
        assert(point_within(p, ns[0].span.start, ns[0].span.end));
    } else {
        assert(point_le(point_at(s, j), p));
        assert(j < s.len());
        lemma_scan_covers(s, j, p);
        let k = choose|k: int|
            0 <= k < scan_all(s, j).len() && point_within(
                p,
                (#[trigger] scan_all(s, j)[k]).span.start,
                scan_all(s, j)[k].span.end,
            );
        assert(ns[k + 1] == scan_all(s, j)[k]);
        assert(point_within(p, ns[k + 1].span.start, ns[k + 1].span.end));
    }
}

/// What the bytes under an operand node look like: a numeric operand
/// is a sign character and binary digits, a label operand is binary
/// digits alone.
pub open spec fn payload_bytes_wf(n: InstrNode, s: Seq<u8>) -> bool {
    match n.payload {
        Some(pl) => {
            &&& pl.span.end_byte <= s.len()
            &&& (pl.kind is Num ==> pl.span.start_byte < pl.span.end_byte && (s[
                pl.span.start_byte as int
            ] == SPACE_BYTE || s[pl.span.start_byte as int] == TAB_BYTE) && forall|j: int|
                pl.span.start_byte < j < pl.span.end_byte ==> (s[j] == SPACE_BYTE || s[j]
                    == TAB_BYTE))
            &&& (pl.kind is Label ==> forall|j: int|
                pl.span.start_byte <= j < pl.span.end_byte ==> (s[j] == SPACE_BYTE || s[j]
                    == TAB_BYTE))
        },
        None => true,
    }
}

/// A scanned instruction's operand bytes are what the grammar says.
pub proof fn lemma_scan_instr_payload(s: Seq<u8>, i: int)
    requires
        0 <= i < s.len() <= usize::MAX,
    ensures
        payload_bytes_wf(scan_instr(s, i).0, s),
{
    if i + 3 <= s.len() {
        lemma_scan_bits_end(s, i + 3);
    }
    if i + 4 <= s.len() {
        lemma_scan_bits_end(s, i + 4);
    }
}

/// Every node of a whole-document scan has the operand bytes the
/// grammar says.
pub proof fn lemma_scan_all_payload(s: Seq<u8>, i: int)
    requires
        0 <= i <= s.len() <= usize::MAX,
    ensures
        forall|k: int|
            0 <= k < scan_all(s, i).len() ==> payload_bytes_wf(#[trigger] scan_all(s, i)[k], s),
    decreases s.len() - i,
{
    if i < s.len() {
        lemma_scan_instr_bounds(s, i);
        lemma_scan_instr_payload(s, i);
        lemma_scan_all_payload(s, scan_instr(s, i).1);
        assert(scan_all(s, i) == seq![scan_instr(s, i).0] + scan_all(s, scan_instr(s, i).1));
        assert forall|k: int| 0 <= k < scan_all(s, i).len() implies payload_bytes_wf(
            #[trigger] scan_all(s, i)[k],
            s,
        ) by {
            if k == 0 {
                assert(scan_all(s, i)[k] == scan_instr(s, i).0);
            } else {
                assert(scan_all(s, i)[k] == scan_all(s, scan_instr(s, i).1)[k - 1]);
            }
        }
    }
}

/// The whole document scanned from offset `i`: the top-level nodes in
/// source order.
pub open spec fn scan_all(s: Seq<u8>, i: int) -> Seq<InstrNode>
    decreases s.len() - i,
    when 0 <= i
    via scan_all_dec
{
    if i >= s.len() {
        Seq::empty()
    } else {
        seq![scan_instr(s, i).0] + scan_all(s, scan_instr(s, i).1)
    }
}

#[via_fn]
proof fn scan_all_dec(s: Seq<u8>, i: int) {
    if i < s.len() {
        lemma_scan_instr_bounds(s, i);
    }
}

/// Everything a scan of the whole document promises about its nodes:
/// each is well formed, they sit between the scan's start and the end
/// of the input, and they appear in source order without overlap, on
/// the byte axis and on the point axis alike.
pub proof fn lemma_scan_all_wf(s: Seq<u8>, i: int)
    requires
        0 <= i <= s.len() <= usize::MAX,
    ensures
        forall|k: int|
            0 <= k < scan_all(s, i).len() ==> instr_wf(#[trigger] scan_all(s, i)[k]),
        forall|k: int|
            0 <= k < scan_all(s, i).len() ==> i <= (#[trigger] scan_all(s, i)[k]).span.start_byte
                && scan_all(s, i)[k].span.end_byte <= s.len(),
        forall|k: int|
            0 <= k < scan_all(s, i).len() ==> (#[trigger] scan_all(s, i)[k]).span.start == point_at(
                s,
                scan_all(s, i)[k].span.start_byte as int,
            ) && scan_all(s, i)[k].span.end == point_at(
                s,
                scan_all(s, i)[k].span.end_byte as int,
            ),
        forall|k: int, l: int|
            0 <= k < l < scan_all(s, i).len() ==> (#[trigger] scan_all(s, i)[k]).span.end_byte <= (
            #[trigger] scan_all(s, i)[l]).span.start_byte,
    decreases s.len() - i,
{
    if i < s.len() {
        lemma_scan_instr_bounds(s, i);
        lemma_scan_instr_wf(s, i);
        lemma_scan_all_wf(s, scan_instr(s, i).1);
    }
}

} // verus!
