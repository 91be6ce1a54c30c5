//! The node classifier: the smallest meaningful node under a cursor.
//!
//! The separator tokens an instruction is spelled with are ignored
//! kinds; the classifier walks past them to the nearest enclosing node
//! that means something.  Concretely: a point inside an operand node
//! yields that operand, any other point inside an instruction yields
//! the instruction, and a point only the root contains yields nothing,
//! there being no interesting token there.
//!
//! When a point lies exactly on the boundary of two neighbouring
//! instructions, the earlier one wins; callers must not rely on which
//! side wins.

use vstd::prelude::*;

use crate::coords::{point_within, points_within, Point};
use crate::kinds::{spec_is_ignored, NodeKind};
use crate::tree::{instr_wf, InstrNode, Span, SyntaxTree};

verus! {

/// The first top-level node at or after index `k` whose span contains
/// the point, or the node count if there is none.
pub open spec fn find_instr(ns: Seq<InstrNode>, p: Point, k: int) -> int
    decreases ns.len() - k,
{
    if k < 0 || k >= ns.len() {
        ns.len() as int
    } else if point_within(p, ns[k].span.start, ns[k].span.end) {
        k
    } else {
        find_instr(ns, p, k + 1)
    }
}

/// What the search finds: the first containing node, none earlier.
pub proof fn lemma_find_instr(ns: Seq<InstrNode>, p: Point, k: int)
    requires
        0 <= k <= ns.len(),
    ensures
        k <= find_instr(ns, p, k) <= ns.len(),
        find_instr(ns, p, k) < ns.len() ==> point_within(
            p,
            ns[find_instr(ns, p, k)].span.start,
            ns[find_instr(ns, p, k)].span.end,
        ),
        forall|l: int|
            k <= l < find_instr(ns, p, k) ==> !point_within(
                p,
                (#[trigger] ns[l]).span.start,
                ns[l].span.end,
            ),
        find_instr(ns, p, k) == ns.len() ==> forall|l: int|
            k <= l < ns.len() ==> !point_within(
                p,
                (#[trigger] ns[l]).span.start,
                ns[l].span.end,
            ),
    decreases ns.len() - k,
{
    if k < ns.len() && !point_within(p, ns[k].span.start, ns[k].span.end) {
        lemma_find_instr(ns, p, k + 1);
    }
}

/// The node the classifier yields for a point: the kind and span of
/// the smallest meaningful node containing it, or nothing when only
/// the root contains it.
pub open spec fn spec_node_at(ns: Seq<InstrNode>, p: Point) -> Option<(NodeKind, Span)> {
    let k = find_instr(ns, p, 0);
    if k < ns.len() {
        let n = ns[k];
        match n.payload {
            Some(pl) => if point_within(p, pl.span.start, pl.span.end) {
                Some((pl.kind, pl.span))
            } else {
                Some((n.kind, n.span))
            },
            None => Some((n.kind, n.span)),
        }
    } else {
        None
    }
}

/// Find the smallest meaningful node containing a point.
pub fn node_at(t: &SyntaxTree, p: Point) -> (r: Option<(NodeKind, Span)>)
    ensures
        r == spec_node_at(t.instrs@, p),
{
    let mut k: usize = 0;
    loop
        invariant
            0 <= k <= t.instrs@.len(),
            find_instr(t.instrs@, p, 0) == find_instr(t.instrs@, p, k as int),
        decreases t.instrs@.len() - k,
    {
        if k >= t.instrs.len() {
            return None;
        }
        let n = &t.instrs[k];
        if points_within(p, n.span.start, n.span.end) {
            match &n.payload {
                Some(pl) => {
                    if points_within(p, pl.span.start, pl.span.end) {
                        return Some((pl.kind, pl.span));
                    } else {
                        return Some((n.kind, n.span));
                    }
                },
                None => {
                    return Some((n.kind, n.span));
                },
            }
        }
        k = k + 1;
    }
}

/// The classifier ignores padding: whatever it yields is neither of an
/// ignored kind nor the root, it contains the point, and it yields
/// something exactly when some top-level node contains the point.
pub proof fn lemma_classifier_skips_ignored(ns: Seq<InstrNode>, p: Point)
    requires
        forall|k: int| 0 <= k < ns.len() ==> instr_wf(#[trigger] ns[k]),
    ensures
        spec_node_at(ns, p) matches Some(hit) ==> !spec_is_ignored(hit.0) && !(hit.0
            is SourceFile) && point_within(p, hit.1.start, hit.1.end),
        spec_node_at(ns, p) is Some <==> exists|k: int|
            0 <= k < ns.len() && point_within(
                p,
                (#[trigger] ns[k]).span.start,
                ns[k].span.end,
            ),
{
    lemma_find_instr(ns, p, 0);
    let k = find_instr(ns, p, 0);
    if k < ns.len() {
        assert(instr_wf(ns[k]));
    }
}

} // verus!
