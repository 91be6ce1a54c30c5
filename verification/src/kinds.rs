//! The node kinds of the whitespace grammar.
//!
//! Every byte of a program is a space, tab or newline; the grammar
//! groups them into instructions.  Each instruction node's kind names
//! its operation and starts with `op_`; a number or label operand is a
//! child node of kind `num` or `label`; the raw characters themselves
//! are separator tokens of the ignored kinds, which carry no meaning of
//! their own and are skipped by the node classifier.

use vstd::prelude::*;

verus! {

/// The kind of a syntax tree node.
#[derive(Clone, Copy, PartialEq, Eq, Structural, Debug)]
pub enum NodeKind {
    /// The root of the tree, spanning the whole document.
    SourceFile,
    /// Stack operations.
    OpPush,
    OpDup,
    OpSwap,
    OpDrop,
    OpCopy,
    OpSlide,
    /// Arithmetic operations.
    OpAdd,
    OpSub,
    OpMul,
    OpDiv,
    OpMod,
    /// Heap operations.
    OpStore,
    OpRetrieve,
    /// Input and output operations.
    OpOutChar,
    OpOutNum,
    OpReadChar,
    OpReadNum,
    /// Flow-control operations.
    OpMark,
    OpCall,
    OpJump,
    OpJumpZero,
    OpJumpNeg,
    OpReturn,
    OpEnd,
    /// A numeric literal operand.
    Num,
    /// A jump-target operand.
    Label,
    /// Separator tokens: the raw characters an instruction is spelled
    /// with.  These are the ignored kinds.
    Space,
    Tab,
    Newline,
    /// A stretch of input that is not a well-formed instruction.
    Error,
}

/// The name of a kind, as the grammar writes it.
pub open spec fn spec_kind_name(k: NodeKind) -> Seq<char> {
    match k {
        NodeKind::SourceFile => "source_file"@,
        NodeKind::OpPush => "op_push"@,
        NodeKind::OpDup => "op_dup"@,
        NodeKind::OpSwap => "op_swap"@,
        NodeKind::OpDrop => "op_drop"@,
        NodeKind::OpCopy => "op_copy"@,
        NodeKind::OpSlide => "op_slide"@,
        NodeKind::OpAdd => "op_add"@,
        NodeKind::OpSub => "op_sub"@,
        NodeKind::OpMul => "op_mul"@,
        NodeKind::OpDiv => "op_div"@,
        NodeKind::OpMod => "op_mod"@,
        NodeKind::OpStore => "op_store"@,
        NodeKind::OpRetrieve => "op_retrieve"@,
        NodeKind::OpOutChar => "op_out_char"@,
        NodeKind::OpOutNum => "op_out_num"@,
        NodeKind::OpReadChar => "op_read_char"@,
        NodeKind::OpReadNum => "op_read_num"@,
        NodeKind::OpMark => "op_mark"@,
        NodeKind::OpCall => "op_call"@,
        NodeKind::OpJump => "op_jump"@,
        NodeKind::OpJumpZero => "op_jump_zero"@,
        NodeKind::OpJumpNeg => "op_jump_neg"@,
        NodeKind::OpReturn => "op_return"@,
        NodeKind::OpEnd => "op_end"@,
        NodeKind::Num => "num"@,
        NodeKind::Label => "label"@,
        NodeKind::Space => "space"@,
        NodeKind::Tab => "tab"@,
        NodeKind::Newline => "newline"@,
        NodeKind::Error => "error"@,
    }
}

/// The name of a kind, for rendering: hover shows the kind name of a
/// node that is neither a number nor a label.
pub fn kind_name(k: NodeKind) -> (r: &'static str)
    ensures
        r@ == spec_kind_name(k),
{
    match k {
        NodeKind::SourceFile => "source_file",
        NodeKind::OpPush => "op_push",
        NodeKind::OpDup => "op_dup",
        NodeKind::OpSwap => "op_swap",
        NodeKind::OpDrop => "op_drop",
        NodeKind::OpCopy => "op_copy",
        NodeKind::OpSlide => "op_slide",
        NodeKind::OpAdd => "op_add",
        NodeKind::OpSub => "op_sub",
        NodeKind::OpMul => "op_mul",
        NodeKind::OpDiv => "op_div",
        NodeKind::OpMod => "op_mod",
        NodeKind::OpStore => "op_store",
        NodeKind::OpRetrieve => "op_retrieve",
        NodeKind::OpOutChar => "op_out_char",
        NodeKind::OpOutNum => "op_out_num",
        NodeKind::OpReadChar => "op_read_char",
        NodeKind::OpReadNum => "op_read_num",
        NodeKind::OpMark => "op_mark",
        NodeKind::OpCall => "op_call",
        NodeKind::OpJump => "op_jump",
        NodeKind::OpJumpZero => "op_jump_zero",
        NodeKind::OpJumpNeg => "op_jump_neg",
        NodeKind::OpReturn => "op_return",
        NodeKind::OpEnd => "op_end",
        NodeKind::Num => "num",
        NodeKind::Label => "label",
        NodeKind::Space => "space",
        NodeKind::Tab => "tab",
        NodeKind::Newline => "newline",
        NodeKind::Error => "error",
    }
}

/// The ignored kinds: separator tokens the classifier walks past.
pub open spec fn spec_is_ignored(k: NodeKind) -> bool {
    k is Space || k is Tab || k is Newline
}

/// Whether a kind is one of the ignored separator kinds.
pub fn is_ignored(k: NodeKind) -> (r: bool)
    ensures
        r == spec_is_ignored(k),
{
    match k {
        NodeKind::Space | NodeKind::Tab | NodeKind::Newline => true,
        _ => false,
    }
}

/// The instruction kinds: everything a top-level node can be, besides
/// an error stretch.
pub open spec fn spec_is_op(k: NodeKind) -> bool {
    ||| k is OpPush
    ||| k is OpDup
    ||| k is OpSwap
    ||| k is OpDrop
    ||| k is OpCopy
    ||| k is OpSlide
    ||| k is OpAdd
    ||| k is OpSub
    ||| k is OpMul
    ||| k is OpDiv
    ||| k is OpMod
    ||| k is OpStore
    ||| k is OpRetrieve
    ||| k is OpOutChar
    ||| k is OpOutNum
    ||| k is OpReadChar
    ||| k is OpReadNum
    ||| k is OpMark
    ||| k is OpCall
    ||| k is OpJump
    ||| k is OpJumpZero
    ||| k is OpJumpNeg
    ||| k is OpReturn
    ||| k is OpEnd
}

/// Whether a kind is an instruction kind.
pub fn is_op(k: NodeKind) -> (r: bool)
    ensures
        r == spec_is_op(k),
{
    match k {
        NodeKind::SourceFile
        | NodeKind::Num
        | NodeKind::Label
        | NodeKind::Space
        | NodeKind::Tab
        | NodeKind::Newline
        | NodeKind::Error => false,
        _ => true,
    }
}

/// Instruction kinds that carry a numeric operand.
pub open spec fn spec_takes_num(k: NodeKind) -> bool {
    k is OpPush || k is OpCopy || k is OpSlide
}

/// Instruction kinds that carry a label operand.
pub open spec fn spec_takes_label(k: NodeKind) -> bool {
    k is OpMark || k is OpCall || k is OpJump || k is OpJumpZero || k is OpJumpNeg
}

/// Flow-control kinds: the operations the inlay hint query reports.
pub open spec fn spec_is_flow(k: NodeKind) -> bool {
    spec_takes_label(k) || k is OpReturn || k is OpEnd
}

/// Whether a kind is a flow-control kind.
pub fn is_flow(k: NodeKind) -> (r: bool)
    ensures
        r == spec_is_flow(k),
{
    match k {
        NodeKind::OpMark
        | NodeKind::OpCall
        | NodeKind::OpJump
        | NodeKind::OpJumpZero
        | NodeKind::OpJumpNeg
        | NodeKind::OpReturn
        | NodeKind::OpEnd => true,
        _ => false,
    }
}

/// An instruction kind's name always starts with the letters `op`,
/// and no other kind's name does: the document highlight query sorts
/// top-level nodes by this prefix.
pub proof fn lemma_op_prefix(k: NodeKind)
    ensures
        spec_is_op(k) <==> (spec_kind_name(k).len() >= 2 && spec_kind_name(k)[0] == 'o'
            && spec_kind_name(k)[1] == 'p'),
{
    reveal_strlit("source_file");
    reveal_strlit("op_push");
    reveal_strlit("op_dup");
    reveal_strlit("op_swap");
    reveal_strlit("op_drop");
    reveal_strlit("op_copy");
    reveal_strlit("op_slide");
    reveal_strlit("op_add");
    reveal_strlit("op_sub");
    reveal_strlit("op_mul");
    reveal_strlit("op_div");
    reveal_strlit("op_mod");
    reveal_strlit("op_store");
    reveal_strlit("op_retrieve");
    reveal_strlit("op_out_char");
    reveal_strlit("op_out_num");
    reveal_strlit("op_read_char");
    reveal_strlit("op_read_num");
    reveal_strlit("op_mark");
    reveal_strlit("op_call");
    reveal_strlit("op_jump");
    reveal_strlit("op_jump_zero");
    reveal_strlit("op_jump_neg");
    reveal_strlit("op_return");
    reveal_strlit("op_end");
    reveal_strlit("num");
    reveal_strlit("label");
    reveal_strlit("space");
    reveal_strlit("tab");
    reveal_strlit("newline");
    reveal_strlit("error");
}

} // verus!
