//! The query handlers: hover, document highlight and inlay hint.
//!
//! Each handler takes the document's bytes and computes its whole
//! answer from them; reading the document and framing the protocol
//! messages happen outside the library.

use vstd::prelude::*;

use crate::classify::{lemma_classifier_skips_ignored, node_at, spec_node_at};
use crate::coords::{point_le, range_of, spec_point_to_position, spec_range_of, Point, Position,
    Range};
use crate::kinds::{kind_name, spec_is_flow, spec_is_op, spec_kind_name, NodeKind};
use crate::parser::tokenize;
use crate::scan::{lemma_scan_all_payload, lemma_scan_all_wf, scan_all, TAB_BYTE};
use crate::tokens::{bits_chars, bits_val, decode_bits, flow_name, push_bits, render_label,
    render_num, spec_flow_name, spec_label_text, spec_num_text};
use crate::tree::{instr_wf, InstrNode, Span};

verus! {

/// Why a query failed: the one fatal decode error.
#[derive(Clone, Copy, PartialEq, Eq, Structural, Debug)]
pub enum QueryError {
    /// A numeric token's digits mean a value too large for a machine
    /// word.
    NumTooLarge,
}

/// A hover answer: the text to show, and the range it covers.
#[derive(Clone, PartialEq, Eq, Debug)]
pub struct Hover {
    pub contents: String,
    pub range: Range,
}

/// The text hover shows for a node of the given kind and span: the
/// decimal value of a number, the debug form of a label, and the kind
/// name verbatim for anything else.
pub open spec fn spec_hover_text(s: Seq<u8>, kind: NodeKind, span: Span) -> Seq<char> {
    if kind is Num {
        spec_num_text(
            s[span.start_byte as int] == TAB_BYTE,
            bits_val(s, span.start_byte + 1, span.end_byte as int),
        )
    } else if kind is Label {
        spec_label_text(s, span.start_byte as int, span.end_byte as int)
    } else {
        spec_kind_name(kind)
    }
}

/// Answer a hover query at a point.
///
/// The classifier picks the smallest meaningful node containing the
/// point; the answer renders that node and covers exactly its span.
/// There is no answer when only the root contains the point, and the
/// query fails only when the point names a numeric token whose value
/// does not fit a machine word.
pub fn hover(text: &[u8], p: Point) -> (r: Result<Option<Hover>, QueryError>)
    ensures
        ({
            let ns = scan_all(text@, 0);
            match spec_node_at(ns, p) {
                Some(hit) => {
                    if hit.0 is Num && bits_val(text@, hit.1.start_byte + 1, hit.1.end_byte as int)
                        > u64::MAX {
                        r == Err::<Option<Hover>, QueryError>(QueryError::NumTooLarge)
                    } else {
                        r matches Ok(o) && o matches Some(h) && h.contents@ == spec_hover_text(
                            text@,
                            hit.0,
                            hit.1,
                        ) && h.range == spec_range_of(hit.1.start, hit.1.end)
                    }
                },
                None => r == Ok::<Option<Hover>, QueryError>(None),
            }
        }),
{
    let t = tokenize(text);
    proof {
        lemma_scan_all_wf(text@, 0);
        lemma_scan_all_payload(text@, 0);
        lemma_classifier_skips_ignored(t.instrs@, p);
        crate::classify::lemma_find_instr(t.instrs@, p, 0);
    }
    match node_at(&t, p) {
        None => Ok(None),
        Some((kind, span)) => {
            let contents: String = match kind {
                NodeKind::Num => {
                    let negative = text[span.start_byte] == TAB_BYTE;
                    match decode_bits(text, span.start_byte + 1, span.end_byte) {
                        Some(v) => render_num(negative, v),
                        None => {
                            return Err(QueryError::NumTooLarge);
                        },
                    }
                },
                NodeKind::Label => render_label(text, span.start_byte, span.end_byte),
                _ => String::from_str(kind_name(kind)),
            };
            Ok(Some(Hover { contents, range: range_of(span.start, span.end) }))
        },
    }
}

/// How a top-level node is coloured by the document highlight query.
#[derive(Clone, Copy, PartialEq, Eq, Structural, Debug)]
pub enum HighlightKind {
    Read,
    Write,
    Text,
}

/// One document highlight.
#[derive(Clone, Copy, PartialEq, Eq, Structural, Debug)]
pub struct Highlight {
    pub range: Range,
    pub kind: HighlightKind,
}

/// The colour of a node: an instruction reads, a bare number writes,
/// everything else is plain text.  This is a visual convention keyed
/// on the kind, not a data-flow analysis.
pub open spec fn spec_highlight_kind(k: NodeKind) -> HighlightKind {
    if spec_is_op(k) {
        HighlightKind::Read
    } else if k is Num {
        HighlightKind::Write
    } else {
        HighlightKind::Text
    }
}

/// The colour of a node.
pub fn highlight_kind(k: NodeKind) -> (r: HighlightKind)
    ensures
        r == spec_highlight_kind(k),
{
    if crate::kinds::is_op(k) {
        HighlightKind::Read
    } else if matches!(k, NodeKind::Num) {
        HighlightKind::Write
    } else {
        HighlightKind::Text
    }
}

/// The colour rule follows the kind names: a kind whose name starts
/// with the letters `op` reads, the kind named `num` writes, and
/// every other kind is plain text.
pub proof fn lemma_highlight_kind_follows_names(k: NodeKind)
    ensures
        (spec_highlight_kind(k) is Read) <==> (spec_kind_name(k).len() >= 2 && spec_kind_name(k)[0]
            == 'o' && spec_kind_name(k)[1] == 'p'),
        (spec_highlight_kind(k) is Write) <==> (spec_kind_name(k) == "num"@ && !(spec_kind_name(
            k,
        ).len() >= 2 && spec_kind_name(k)[0] == 'o' && spec_kind_name(k)[1] == 'p')),
{
    crate::kinds::lemma_op_prefix(k);
    reveal_strlit("source_file");
    reveal_strlit("num");
    reveal_strlit("label");
    reveal_strlit("space");
    reveal_strlit("tab");
    reveal_strlit("newline");
    reveal_strlit("error");
    if !(k is Num) && !spec_is_op(k) {
        assert("num"@.len() == 3);
        match k {
            NodeKind::SourceFile => assert("source_file"@.len() == 11),
            NodeKind::Label => assert("label"@.len() == 5),
            NodeKind::Space => assert("space"@.len() == 5),
            NodeKind::Tab => {
                assert("tab"@[0] == 't');
                assert("num"@[0] == 'n');
            },
            NodeKind::Newline => assert("newline"@.len() == 7),
            NodeKind::Error => assert("error"@.len() == 5),
            _ => assert(false),
        }
        assert(spec_kind_name(k) != "num"@);
    }
}

/// One position no later than another, line first.
pub open spec fn position_le(a: Position, b: Position) -> bool {
    a.line < b.line || (a.line == b.line && a.character <= b.character)
}

/// Answer a document highlight query: one highlight per direct child
/// of the root, in source order, covering exactly the child's span;
/// the ranges do not overlap.
pub fn document_highlights(text: &[u8]) -> (r: Vec<Highlight>)
    ensures
        r@.len() == scan_all(text@, 0).len(),
        forall|k: int|
            0 <= k < r@.len() ==> (#[trigger] r@[k]).range == spec_range_of(
                scan_all(text@, 0)[k].span.start,
                scan_all(text@, 0)[k].span.end,
            ) && r@[k].kind == spec_highlight_kind(scan_all(text@, 0)[k].kind),
        forall|k: int, l: int|
            0 <= k < l < r@.len() ==> position_le(
                (#[trigger] r@[k]).range.end,
                (#[trigger] r@[l]).range.start,
            ),
{
    let t = tokenize(text);
    let ghost ns = scan_all(text@, 0);
    let mut out: Vec<Highlight> = Vec::new();
    let mut k: usize = 0;
    while k < t.instrs.len()
        invariant
            t.instrs@ == ns,
            crate::tree::tree_wf(t),
            0 <= k <= ns.len(),
            out@.len() == k,
            forall|q: int|
                0 <= q < k ==> (#[trigger] out@[q]).range == spec_range_of(
                    ns[q].span.start,
                    ns[q].span.end,
                ) && out@[q].kind == spec_highlight_kind(ns[q].kind),
        decreases t.instrs@.len() - k,
    {
        let n = &t.instrs[k];
        out.push(Highlight { range: range_of(n.span.start, n.span.end), kind: highlight_kind(n.kind) });
        k = k + 1;
    }
    proof {
        assert forall|a: int, b: int| 0 <= a < b < out@.len() implies position_le(
            (#[trigger] out@[a]).range.end,
            (#[trigger] out@[b]).range.start,
        ) by {
            assert(point_le(ns[a].span.end, ns[b].span.start));
        }
    }
    out
}

/// One inlay hint: the text to show and the position it sits at.
#[derive(Clone, PartialEq, Eq, Debug)]
pub struct InlayHint {
    pub label: String,
    pub position: Position,
}

/// The text of a flow-control hint: the operation's name, then its
/// label operand written as visible letters, when it has one.
pub open spec fn spec_hint_label(s: Seq<u8>, n: InstrNode) -> Seq<char> {
    match n.payload {
        Some(pl) => spec_flow_name(n.kind) + " "@ + bits_chars(
            s,
            pl.span.start_byte as int,
            pl.span.end_byte as int,
        ),
        None => spec_flow_name(n.kind),
    }
}

/// The hints of a node sequence: one per flow-control operation, in
/// source order, each sitting at the end of its operation's node.
pub open spec fn spec_hints(s: Seq<u8>, ns: Seq<InstrNode>) -> Seq<(Seq<char>, Position)>
    decreases ns.len(),
{
    if ns.len() == 0 {
        Seq::empty()
    } else {
        (if spec_is_flow(ns.first().kind) {
            seq![(spec_hint_label(s, ns.first()), spec_point_to_position(ns.first().span.end))]
        } else {
            Seq::empty()
        }) + spec_hints(s, ns.drop_first())
    }
}

/// The flow-control operations of a node sequence, in source order.
pub open spec fn spec_flow_ops(ns: Seq<InstrNode>) -> Seq<InstrNode>
    decreases ns.len(),
{
    if ns.len() == 0 {
        Seq::empty()
    } else {
        (if spec_is_flow(ns.first().kind) {
            seq![ns.first()]
        } else {
            Seq::empty()
        }) + spec_flow_ops(ns.drop_first())
    }
}

/// Enumerate the flow-control operations of a document, in source
/// order: the view a client walks to see every mark, call, jump,
/// return and program end with its span.
pub fn flow_control_ops(text: &[u8]) -> (r: Vec<InstrNode>)
    ensures
        r@ == spec_flow_ops(scan_all(text@, 0)),
{
    let t = tokenize(text);
    let ghost ns = scan_all(text@, 0);
    let mut out: Vec<InstrNode> = Vec::new();
    let mut k: usize = 0;
    proof {
        assert(ns.skip(0) =~= ns);
    }
    while k < t.instrs.len()
        invariant
            t.instrs@ == ns,
            0 <= k <= ns.len(),
            spec_flow_ops(ns) == out@ + spec_flow_ops(ns.skip(k as int)),
        decreases t.instrs@.len() - k,
    {
        let n = &t.instrs[k];
        proof {
            assert(ns.skip(k as int).first() == ns[k as int]);
            assert(ns.skip(k as int).drop_first() =~= ns.skip(k as int + 1));
        }
        if crate::kinds::is_flow(n.kind) {
            let ghost prev = out@;
            out.push(*n);
            proof {
                assert(spec_flow_ops(ns.skip(k as int)) =~= seq![ns[k as int]] + spec_flow_ops(
                    ns.skip(k as int + 1),
                ));
                assert(prev.push(ns[k as int]) + spec_flow_ops(ns.skip(k as int + 1)) =~= prev
                    + spec_flow_ops(ns.skip(k as int)));
            }
        } else {
            proof {
                assert(spec_flow_ops(ns.skip(k as int)) =~= spec_flow_ops(ns.skip(k as int + 1)));
            }
        }
        k = k + 1;
    }
    proof {
        assert(spec_flow_ops(ns.skip(ns.len() as int)) =~= Seq::<InstrNode>::empty());
        assert(out@ + Seq::<InstrNode>::empty() =~= out@);
    }
    out
}

/// One hint per flow-control operation: the hint list and the
/// operation list are the same length.
pub proof fn lemma_one_hint_per_flow_op(s: Seq<u8>, ns: Seq<InstrNode>)
    ensures
        spec_hints(s, ns).len() == spec_flow_ops(ns).len(),
    decreases ns.len(),
{
    if ns.len() > 0 {
        lemma_one_hint_per_flow_op(s, ns.drop_first());
    }
}

/// Inside the document the classifier always finds something: a
/// document with any content at all covers every point up to its end
/// with top-level nodes, so hover never goes unanswered there.
pub proof fn lemma_classifier_total_inside(s: Seq<u8>, p: Point)
    requires
        0 < s.len() <= usize::MAX,
        point_le(p, crate::scan::point_at(s, s.len() as int)),
    ensures
        spec_node_at(scan_all(s, 0), p) is Some,
{
    let ns = scan_all(s, 0);
    lemma_scan_all_wf(s, 0);
    crate::scan::lemma_scan_covers(s, 0, p);
    lemma_classifier_skips_ignored(ns, p);
}

/// A match of `pat` inside `s` starting at offset `i`.
pub open spec fn contains_at(s: Seq<char>, pat: Seq<char>, i: int) -> bool {
    0 <= i && i + pat.len() <= s.len() && forall|q: int| 0 <= q < pat.len() ==> s[i + q] == pat[q]
}

/// Whether `pat` occurs anywhere inside `s`.
pub open spec fn contains_pat(s: Seq<char>, pat: Seq<char>) -> bool {
    exists|i: int| contains_at(s, pat, i)
}

/// The word `label ` cannot occur in a name followed by digit
/// letters, provided no window of the name itself opens with an `l`.
proof fn lemma_no_label_window(name: Seq<char>, bits: Seq<char>)
    requires
        forall|q: int| 0 <= q < bits.len() ==> (bits[q] == 'S' || bits[q] == 'T'),
        forall|i: int| 0 <= i && i + 6 <= name.len() ==> name[i] != 'l',
    ensures
        !contains_pat(name + bits, "label "@),
{
    reveal_strlit("label ");
    let pat = "label "@;
    let h = name + bits;
    assert(pat.len() == 6);
    assert(pat[0] == 'l' && pat[1] == 'a' && pat[2] == 'b' && pat[3] == 'e' && pat[4] == 'l'
        && pat[5] == ' ');
    assert forall|i: int| !contains_at(h, pat, i) by {
        if 0 <= i && i + 6 <= h.len() {
            if i + 6 <= name.len() {
                assert(h[i] == name[i]);
                if contains_at(h, pat, i) {
                    assert(h[i + 0] == pat[0]);
                    assert(false);
                }
            } else {
                let j: int = if i >= name.len() {
                    i
                } else {
                    name.len() as int
                };
                assert(i <= j < i + 6);
                assert(h[j] == bits[j - name.len()]);
                if contains_at(h, pat, i) {
                    let q = j - i;
                    assert(h[i + q] == pat[q]);
                    assert(q == 0 || q == 1 || q == 2 || q == 3 || q == 4 || q == 5);
                    assert(false);
                }
            }
        }
    }
}

/// A hint's text never contains the word `label `: the label marker
/// of the protocol rendering is always stripped.
pub proof fn lemma_hint_label_clean(s: Seq<u8>, n: InstrNode)
    requires
        spec_is_flow(n.kind),
    ensures
        !contains_pat(spec_hint_label(s, n), "label "@),
{
    reveal_strlit("mark");
    reveal_strlit("call");
    reveal_strlit("jump");
    reveal_strlit("jump-zero");
    reveal_strlit("jump-neg");
    reveal_strlit("return");
    reveal_strlit("end");
    reveal_strlit(" ");
    let name = spec_flow_name(n.kind);
    match n.payload {
        Some(pl) => {
            crate::tokens::lemma_bits_chars_range(
                s,
                pl.span.start_byte as int,
                pl.span.end_byte as int,
            );
            let bits = bits_chars(s, pl.span.start_byte as int, pl.span.end_byte as int);
            let prefix = name + " "@;
            assert forall|i: int| 0 <= i && i + 6 <= prefix.len() implies prefix[i] != 'l' by {
                assert(prefix.len() <= 10);
                assert(i <= 4);
                if i < name.len() {
                    assert(prefix[i] == name[i]);
                    assert(i == 0 || i == 1 || i == 2 || i == 3 || i == 4);
                }
            }
            lemma_no_label_window(prefix, bits);
            assert(spec_hint_label(s, n) == name + " "@ + bits);
            assert((name + " "@) + bits =~= name + " "@ + bits);
        },
        None => {
            lemma_no_label_window(name, Seq::<char>::empty());
            assert(name + Seq::<char>::empty() =~= name);
        },
    }
}

/// No hint in a document's hint list contains the word `label `.
pub proof fn lemma_hints_have_no_label_marker(s: Seq<u8>, ns: Seq<InstrNode>)
    ensures
        forall|k: int|
            0 <= k < spec_hints(s, ns).len() ==> !contains_pat(
                (#[trigger] spec_hints(s, ns)[k]).0,
                "label "@,
            ),
    decreases ns.len(),
{
    if ns.len() > 0 {
        lemma_hints_have_no_label_marker(s, ns.drop_first());
        if spec_is_flow(ns.first().kind) {
            lemma_hint_label_clean(s, ns.first());
            assert forall|k: int| 0 <= k < spec_hints(s, ns).len() implies !contains_pat(
                (#[trigger] spec_hints(s, ns)[k]).0,
                "label "@,
            ) by {
                if k > 0 {
                    assert(spec_hints(s, ns)[k] == spec_hints(s, ns.drop_first())[k - 1]);
                }
            }
        } else {
            assert forall|k: int| 0 <= k < spec_hints(s, ns).len() implies !contains_pat(
                (#[trigger] spec_hints(s, ns)[k]).0,
                "label "@,
            ) by {
                assert(spec_hints(s, ns)[k] == spec_hints(s, ns.drop_first())[k]);
            }
        }
    }
}

/// The protocol rendering of a flow-control operation: its name, with
/// a label operand marked by the word `label`.
pub open spec fn spec_flow_display(s: Seq<u8>, n: InstrNode) -> Seq<char> {
    match n.payload {
        Some(pl) => spec_flow_name(n.kind) + " label "@ + bits_chars(
            s,
            pl.span.start_byte as int,
            pl.span.end_byte as int,
        ),
        None => spec_flow_name(n.kind),
    }
}

/// A hint's text is the operation's protocol rendering with its one
/// occurrence of `label ` cut out; an operation without a label
/// operand renders without the marker in the first place.
pub proof fn lemma_hint_is_stripped_display(s: Seq<u8>, n: InstrNode)
    requires
        spec_is_flow(n.kind),
    ensures
        n.payload matches Some(pl) ==> contains_at(
            spec_flow_display(s, n),
            "label "@,
            spec_flow_name(n.kind).len() as int + 1,
        ) && spec_hint_label(s, n) == spec_flow_display(s, n).subrange(
            0,
            spec_flow_name(n.kind).len() as int + 1,
        ) + spec_flow_display(s, n).subrange(
            spec_flow_name(n.kind).len() as int + 7,
            spec_flow_display(s, n).len() as int,
        ),
        n.payload is None ==> spec_hint_label(s, n) == spec_flow_display(s, n),
{
    reveal_strlit("label ");
    reveal_strlit(" label ");
    reveal_strlit(" ");
    match n.payload {
        Some(pl) => {
            let name = spec_flow_name(n.kind);
            let bits = bits_chars(s, pl.span.start_byte as int, pl.span.end_byte as int);
            let d = spec_flow_display(s, n);
            assert(d == name + " label "@ + bits);
            assert((name + " label "@) + bits =~= name + (" label "@ + bits));
            assert(contains_at(d, "label "@, name.len() as int + 1));
            assert(d.subrange(0, name.len() as int + 1) =~= name + " "@);
            assert(d.subrange(name.len() as int + 7, d.len() as int) =~= bits);
            assert((name + " "@) + bits =~= name + " "@ + bits);
        },
        None => {},
    }
}

/// Answer an inlay hint query: one hint per flow-control operation in
/// the document, in source order.
pub fn inlay_hints(text: &[u8]) -> (r: Vec<InlayHint>)
    ensures
        r@.map_values(|h: InlayHint| (h.label@, h.position)) == spec_hints(
            text@,
            scan_all(text@, 0),
        ),
{
    let t = tokenize(text);
    let ghost s = text@;
    let ghost ns = scan_all(text@, 0);
    let mut out: Vec<InlayHint> = Vec::new();
    let mut k: usize = 0;
    proof {
        lemma_scan_all_wf(s, 0);
        lemma_scan_all_payload(s, 0);
        assert(ns.skip(0) =~= ns);
    }
    while k < t.instrs.len()
        invariant
            t.instrs@ == ns,
            s == text@,
            0 <= k <= ns.len(),
            forall|q: int| 0 <= q < ns.len() ==> instr_wf(#[trigger] ns[q]),
            forall|q: int|
                0 <= q < ns.len() ==> crate::scan::payload_bytes_wf(#[trigger] ns[q], s),
            spec_hints(s, ns) == out@.map_values(|h: InlayHint| (h.label@, h.position))
                + spec_hints(s, ns.skip(k as int)),
        decreases t.instrs@.len() - k,
    {
        let n = &t.instrs[k];
        proof {
            assert(ns.skip(k as int).first() == ns[k as int]);
            assert(ns.skip(k as int).drop_first() =~= ns.skip(k as int + 1));
        }
        if crate::kinds::is_flow(n.kind) {
            let label: String = match &n.payload {
                Some(pl) => {
                    let mut lab = String::from_str(flow_name(n.kind));
                    lab.append(" ");
                    push_bits(&mut lab, text, pl.span.start_byte, pl.span.end_byte);
                    proof {
                        assert((spec_flow_name(n.kind) + " "@) + bits_chars(
                            s,
                            pl.span.start_byte as int,
                            pl.span.end_byte as int,
                        ) =~= spec_flow_name(n.kind) + " "@ + bits_chars(
                            s,
                            pl.span.start_byte as int,
                            pl.span.end_byte as int,
                        ));
                    }
                    lab
                },
                None => String::from_str(flow_name(n.kind)),
            };
            let hint = InlayHint {
                label,
                position: crate::coords::point_to_position(n.span.end),
            };
            proof {
                assert(hint.label@ == spec_hint_label(s, ns[k as int]));
            }
            let ghost prev = out@;
            out.push(hint);
            proof {
                assert(out@.map_values(|h: InlayHint| (h.label@, h.position)) =~= prev.map_values(
                    |h: InlayHint| (h.label@, h.position),
                ).push((spec_hint_label(s, ns[k as int]), spec_point_to_position(
                    ns[k as int].span.end,
                ))));
                assert(spec_hints(s, ns.skip(k as int)) =~= seq![
                    (spec_hint_label(s, ns[k as int]), spec_point_to_position(
                        ns[k as int].span.end,
                    )),
                ] + spec_hints(s, ns.skip(k as int + 1)));
                assert(prev.map_values(|h: InlayHint| (h.label@, h.position)).push((
                    spec_hint_label(s, ns[k as int]),
                    spec_point_to_position(ns[k as int].span.end),
                )) + spec_hints(s, ns.skip(k as int + 1)) =~= prev.map_values(
                    |h: InlayHint| (h.label@, h.position),
                ) + spec_hints(s, ns.skip(k as int)));
            }
        } else {
            proof {
                assert(spec_hints(s, ns.skip(k as int)) =~= spec_hints(s, ns.skip(k as int + 1)));
            }
        }
        k = k + 1;
    }
    proof {
        assert(spec_hints(s, ns.skip(ns.len() as int)) =~= Seq::<(Seq<char>, Position)>::empty());
        assert(out@.map_values(|h: InlayHint| (h.label@, h.position)) + Seq::<(
            Seq<char>,
            Position,
        )>::empty() =~= out@.map_values(|h: InlayHint| (h.label@, h.position)));
    }
    out
}

} // verus!
