//! The syntax tree a document tokenizes to.
//!
//! The root spans the whole document; its direct children are the
//! top-level instructions and error stretches, in source order.  An
//! instruction that carries an operand holds one child node of kind
//! `num` or `label`.  The separator tokens an instruction is spelled
//! with (the ignored kinds) carry no information of their own, so they
//! are not materialized as nodes: a query never returns one.

use vstd::prelude::*;

use crate::coords::{point_le, Point};
use crate::kinds::{spec_is_op, spec_takes_label, spec_takes_num, NodeKind};

verus! {

/// The extent of a node, both as a byte range and as a pair of points.
#[derive(Clone, Copy, PartialEq, Eq, Structural, Debug)]
pub struct Span {
    pub start_byte: usize,
    pub end_byte: usize,
    pub start: Point,
    pub end: Point,
}

/// An operand node: the `num` or `label` child of an instruction.
/// Its span covers the operand's characters, without the newline that
/// terminates it.
#[derive(Clone, Copy, PartialEq, Eq, Structural, Debug)]
pub struct PayloadNode {
    pub kind: NodeKind,
    pub span: Span,
}

/// A direct child of the root: an instruction, or an error stretch.
#[derive(Clone, Copy, PartialEq, Eq, Debug)]
pub struct InstrNode {
    pub kind: NodeKind,
    pub span: Span,
    pub payload: Option<PayloadNode>,
}

/// The tree of one document.
#[derive(Clone, PartialEq, Eq, Debug)]
pub struct SyntaxTree {
    /// The document's length in bytes; the root node spans it whole.
    pub text_len: usize,
    /// The point just past the last byte: the root node's end.
    pub root_end: Point,
    /// The root's direct children, in source order.
    pub instrs: Vec<InstrNode>,
}

/// A span is ordered when its start comes no later than its end, on
/// both the byte axis and the point axis.
pub open spec fn span_ordered(s: Span) -> bool {
    s.start_byte <= s.end_byte && point_le(s.start, s.end)
}

/// One span contained in another, on both axes.
pub open spec fn span_within(inner: Span, outer: Span) -> bool {
    &&& outer.start_byte <= inner.start_byte
    &&& inner.end_byte <= outer.end_byte
    &&& point_le(outer.start, inner.start)
    &&& point_le(inner.end, outer.end)
}

/// Well-formedness of a top-level node:
/// - its kind is an instruction kind or `error`;
/// - its span is ordered;
/// - it holds an operand child exactly when its kind calls for one,
///   of kind `num` for a numeric operand and `label` for a jump
///   target, lying within the instruction and ordered itself.
pub open spec fn instr_wf(n: InstrNode) -> bool {
    &&& spec_is_op(n.kind) || n.kind is Error
    &&& span_ordered(n.span)
    &&& match n.payload {
        Some(p) => {
            &&& spec_takes_num(n.kind) || spec_takes_label(n.kind)
            &&& p.kind == (if spec_takes_num(n.kind) { NodeKind::Num } else { NodeKind::Label })
            &&& span_ordered(p.span)
            &&& span_within(p.span, n.span)
        },
        None => !spec_takes_num(n.kind) && !spec_takes_label(n.kind),
    }
}

/// Well-formedness of a tree: every top-level node is well formed, the
/// nodes appear in source order without overlap, and they all lie
/// within the root's extent.
pub open spec fn tree_wf(t: SyntaxTree) -> bool {
    &&& forall|i: int| 0 <= i < t.instrs@.len() ==> instr_wf(#[trigger] t.instrs@[i])
    &&& forall|i: int, j: int|
        0 <= i < j < t.instrs@.len() ==> (#[trigger] t.instrs@[i]).span.end_byte
            <= (#[trigger] t.instrs@[j]).span.start_byte && point_le(
            t.instrs@[i].span.end,
            t.instrs@[j].span.start,
        )
    &&& forall|i: int|
        0 <= i < t.instrs@.len() ==> (#[trigger] t.instrs@[i]).span.end_byte <= t.text_len
            && point_le(t.instrs@[i].span.end, t.root_end) && point_le(
            Point { row: 0, column: 0 },
            t.instrs@[i].span.start,
        )
}

impl SyntaxTree {
    /// The root node's span: the whole document.
    pub open spec fn spec_root_span(self) -> Span {
        Span {
            start_byte: 0,
            end_byte: self.text_len,
            start: Point { row: 0, column: 0 },
            end: self.root_end,
        }
    }

    /// The root node's span: the whole document.
    pub fn root_span(&self) -> (r: Span)
        ensures
            r == self.spec_root_span(),
    {
        Span {
            start_byte: 0,
            end_byte: self.text_len,
            start: Point { row: 0, column: 0 },
            end: self.root_end,
        }
    }
}

} // verus!
