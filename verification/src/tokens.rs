//! Token values and their renderings.
//!
//! A numeric operand is a sign character (space for positive, tab for
//! negative) followed by binary digits, most significant first: a
//! space digit is zero, a tab digit is one.  Hover renders it as its
//! decimal value.  A label operand is binary digits alone; hover
//! renders it in a debug form, `Label(..)` around the digits written
//! as the visible letters `S` and `T`, which tells it apart from a
//! number.  A flow-control operation renders as its name, its label
//! operand spelled the same visible way.

use vstd::prelude::*;

use crate::kinds::NodeKind;
use crate::scan::TAB_BYTE;

verus! {

/// The numeric weight of one binary digit character.
pub open spec fn bit_of(b: u8) -> nat {
    if b == TAB_BYTE {
        1
    } else {
        0
    }
}

/// The value of the binary digits in `s[i..j]`, most significant
/// first.
pub open spec fn bits_val(s: Seq<u8>, i: int, j: int) -> nat
    decreases j - i,
{
    if j <= i {
        0
    } else {
        2 * bits_val(s, i, j - 1) + bit_of(s[j - 1])
    }
}

/// Reading more digits never shrinks the value.
pub proof fn lemma_bits_val_mono(s: Seq<u8>, i: int, j: int, j2: int)
    requires
        i <= j <= j2,
    ensures
        bits_val(s, i, j) <= bits_val(s, i, j2),
    decreases j2 - j,
{
    if j < j2 {
        lemma_bits_val_mono(s, i, j, j2 - 1);
    }
}

/// Decode the binary digits in `s[start..end]` into a machine word:
/// the value when it fits, nothing when it does not.
pub fn decode_bits(s: &[u8], start: usize, end: usize) -> (r: Option<u64>)
    requires
        start <= end <= s@.len(),
    ensures
        r matches Some(v) ==> v as nat == bits_val(s@, start as int, end as int),
        r is Some <==> bits_val(s@, start as int, end as int) <= u64::MAX,
{
    let mut v: u64 = 0;
    let mut k: usize = start;
    while k < end
        invariant
            start <= k <= end <= s@.len(),
            v as nat == bits_val(s@, start as int, k as int),
        decreases end - k,
    {
        if v >= 0x8000_0000_0000_0000u64 {
            proof {
                lemma_bits_val_mono(s@, start as int, k as int + 1, end as int);
            }
            return None;
        }
        let bit: u64 = if s[k] == TAB_BYTE {
            1
        } else {
            0
        };
        v = 2 * v + bit;
        k = k + 1;
    }
    Some(v)
}

/// The character of one decimal digit.
pub open spec fn digit_char(d: nat) -> char {
    if d == 0 {
        '0'
    } else if d == 1 {
        '1'
    } else if d == 2 {
        '2'
    } else if d == 3 {
        '3'
    } else if d == 4 {
        '4'
    } else if d == 5 {
        '5'
    } else if d == 6 {
        '6'
    } else if d == 7 {
        '7'
    } else if d == 8 {
        '8'
    } else {
        '9'
    }
}

/// The decimal writing of a natural number, without sign or padding.
pub open spec fn dec_str(n: nat) -> Seq<char>
    decreases n,
{
    if n < 10 {
        seq![digit_char(n)]
    } else {
        dec_str(n / 10).push(digit_char(n % 10))
    }
}

/// Append one decimal digit to a string.
fn push_digit(out: &mut String, d: u64)
    requires
        d < 10,
    ensures
        final(out)@ == old(out)@ + seq![digit_char(d as nat)],
{
    proof {
        reveal_strlit("0");
        reveal_strlit("1");
        reveal_strlit("2");
        reveal_strlit("3");
        reveal_strlit("4");
        reveal_strlit("5");
        reveal_strlit("6");
        reveal_strlit("7");
        reveal_strlit("8");
        reveal_strlit("9");
    }
    if d == 0 {
        proof {
            assert("0"@ =~= seq![digit_char(0)]);
        }
        out.append("0");
    } else if d == 1 {
        proof {
            assert("1"@ =~= seq![digit_char(1)]);
        }
        out.append("1");
    } else if d == 2 {
        proof {
            assert("2"@ =~= seq![digit_char(2)]);
        }
        out.append("2");
    } else if d == 3 {
        proof {
            assert("3"@ =~= seq![digit_char(3)]);
        }
        out.append("3");
    } else if d == 4 {
        proof {
            assert("4"@ =~= seq![digit_char(4)]);
        }
        out.append("4");
    } else if d == 5 {
        proof {
            assert("5"@ =~= seq![digit_char(5)]);
        }
        out.append("5");
    } else if d == 6 {
        proof {
            assert("6"@ =~= seq![digit_char(6)]);
        }
        out.append("6");
    } else if d == 7 {
        proof {
            assert("7"@ =~= seq![digit_char(7)]);
        }
        out.append("7");
    } else if d == 8 {
        proof {
            assert("8"@ =~= seq![digit_char(8)]);
        }
        out.append("8");
    } else {
        proof {
            assert("9"@ =~= seq![digit_char(9)]);
        }
        out.append("9");
    }
}

/// Append the decimal writing of a machine word to a string.
pub fn push_dec(out: &mut String, n: u64)
    ensures
        final(out)@ == old(out)@ + dec_str(n as nat),
    decreases n,
{
    if n >= 10 {
        push_dec(out, n / 10);
        push_digit(out, n % 10);
        proof {
            assert(dec_str(n as nat) =~= dec_str(n as nat / 10) + seq![
                digit_char(n as nat % 10),
            ]);
            assert(old(out)@ + (dec_str(n as nat / 10) + seq![digit_char(n as nat % 10)]) =~= (old(
                out,
            )@ + dec_str(n as nat / 10)) + seq![digit_char(n as nat % 10)]);
        }
    } else {
        push_digit(out, n);
    }
}

/// The text hover shows for a numeric token: its decimal value, with a
/// leading minus sign for a negative value, and a bare `0` whatever
/// the sign when the digits mean zero.
pub open spec fn spec_num_text(negative: bool, v: nat) -> Seq<char> {
    if negative && v > 0 {
        seq!['-'] + dec_str(v)
    } else {
        dec_str(v)
    }
}

/// Render a decoded numeric token.
pub fn render_num(negative: bool, v: u64) -> (r: String)
    ensures
        r@ == spec_num_text(negative, v as nat),
{
    let mut out = String::new();
    if negative && v > 0 {
        proof {
            reveal_strlit("-");
            assert("-"@ =~= seq!['-']);
        }
        out.append("-");
    }
    push_dec(&mut out, v);
    proof {
        if negative && v > 0 {
            assert((Seq::<char>::empty() + seq!['-']) + dec_str(v as nat) =~= seq!['-'] + dec_str(
                v as nat,
            ));
        } else {
            assert(Seq::<char>::empty() + dec_str(v as nat) =~= dec_str(v as nat));
        }
    }
    out
}

/// The visible letter of one binary digit: `T` for a tab, `S` for a
/// space.
pub open spec fn bit_char(b: u8) -> char {
    if b == TAB_BYTE {
        'T'
    } else {
        'S'
    }
}

/// The binary digits in `s[i..j]`, written as visible letters.
pub open spec fn bits_chars(s: Seq<u8>, i: int, j: int) -> Seq<char>
    decreases j - i,
{
    if j <= i {
        Seq::empty()
    } else {
        bits_chars(s, i, j - 1).push(bit_char(s[j - 1]))
    }
}

/// Append the visible writing of the digits in `s[start..end]`.
pub fn push_bits(out: &mut String, s: &[u8], start: usize, end: usize)
    requires
        start <= end <= s@.len(),
    ensures
        final(out)@ == old(out)@ + bits_chars(s@, start as int, end as int),
{
    let mut k: usize = start;
    proof {
        assert(out@ =~= out@ + bits_chars(s@, start as int, start as int));
    }
    while k < end
        invariant
            start <= k <= end <= s@.len(),
            out@ == old(out)@ + bits_chars(s@, start as int, k as int),
        decreases end - k,
    {
        proof {
            reveal_strlit("S");
            reveal_strlit("T");
        }
        if s[k] == TAB_BYTE {
            proof {
                assert("T"@ =~= seq![bit_char(s@[k as int])]);
            }
            out.append("T");
        } else {
            proof {
                assert("S"@ =~= seq![bit_char(s@[k as int])]);
            }
            out.append("S");
        }
        proof {
            assert(bits_chars(s@, start as int, k as int + 1) =~= bits_chars(
                s@,
                start as int,
                k as int,
            ) + seq![bit_char(s@[k as int])]);
            assert(old(out)@ + (bits_chars(s@, start as int, k as int) + seq![
                bit_char(s@[k as int]),
            ]) =~= (old(out)@ + bits_chars(s@, start as int, k as int)) + seq![
                bit_char(s@[k as int]),
            ]);
        }
        k = k + 1;
    }
}

/// The text hover shows for a label token: its debug form.
pub open spec fn spec_label_text(s: Seq<u8>, i: int, j: int) -> Seq<char> {
    "Label("@ + bits_chars(s, i, j) + ")"@
}

/// Render a label token in its debug form.
pub fn render_label(s: &[u8], start: usize, end: usize) -> (r: String)
    requires
        start <= end <= s@.len(),
    ensures
        r@ == spec_label_text(s@, start as int, end as int),
{
    let mut out = String::from_str("Label(");
    push_bits(&mut out, s, start, end);
    out.append(")");
    proof {
        assert(("Label("@ + bits_chars(s@, start as int, end as int)) + ")"@ =~= "Label("@
            + bits_chars(s@, start as int, end as int) + ")"@);
    }
    out
}

/// The visible letters of a digit run are only `S` and `T`.
pub proof fn lemma_bits_chars_range(s: Seq<u8>, i: int, j: int)
    ensures
        forall|q: int|
            0 <= q < bits_chars(s, i, j).len() ==> (#[trigger] bits_chars(s, i, j)[q] == 'S'
                || bits_chars(s, i, j)[q] == 'T'),
    decreases j - i,
{
    if j > i {
        lemma_bits_chars_range(s, i, j - 1);
        assert forall|q: int| 0 <= q < bits_chars(s, i, j).len() implies (#[trigger] bits_chars(
            s,
            i,
            j,
        )[q] == 'S' || bits_chars(s, i, j)[q] == 'T') by {
            if q < bits_chars(s, i, j).len() - 1 {
                assert(bits_chars(s, i, j)[q] == bits_chars(s, i, j - 1)[q]);
            }
        }
    }
}

/// The name of a flow-control operation, as its rendering writes it.
pub open spec fn spec_flow_name(k: NodeKind) -> Seq<char> {
    match k {
        NodeKind::OpMark => "mark"@,
        NodeKind::OpCall => "call"@,
        NodeKind::OpJump => "jump"@,
        NodeKind::OpJumpZero => "jump-zero"@,
        NodeKind::OpJumpNeg => "jump-neg"@,
        NodeKind::OpReturn => "return"@,
        NodeKind::OpEnd => "end"@,
        _ => Seq::empty(),
    }
}

/// The name of a flow-control operation.
pub fn flow_name(k: NodeKind) -> (r: &'static str)
    requires
        crate::kinds::spec_is_flow(k),
    ensures
        r@ == spec_flow_name(k),
{
    match k {
        NodeKind::OpMark => "mark",
        NodeKind::OpCall => "call",
        NodeKind::OpJump => "jump",
        NodeKind::OpJumpZero => "jump-zero",
        NodeKind::OpJumpNeg => "jump-neg",
        NodeKind::OpReturn => "return",
        _ => "end",
    }
}

} // verus!
