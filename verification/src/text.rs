//! Numbers as text: decimal digits, right-aligned in a field.

use vstd::prelude::*;

verus! {

/// The character of the digit `d`.
pub open spec fn digit_of(d: nat) -> char
    recommends
        d < 10,
{
    ((48 + d) as u8) as char
}

/// `n` in decimal, without sign or leading zeros.
pub open spec fn decimal(n: nat) -> Seq<char>
    decreases n,
{
    if n < 10 {
        seq![digit_of(n)]
    } else {
        decimal(n / 10).push(digit_of(n % 10))
    }
}

/// `count` spaces.
pub open spec fn spaces(count: nat) -> Seq<char> {
    Seq::new(count, |i: int| ' ')
}

/// `text` in a field of `width` characters, filled with spaces on the left.
/// A text longer than the field is not cut.
pub open spec fn right_aligned(text: Seq<char>, width: nat) -> Seq<char> {
    if text.len() >= width {
        text
    } else {
        spaces((width - text.len()) as nat) + text
    }
}

/// `String::push` of std: the character is appended, and nothing else
/// changes.
#[verifier::external_body]
pub(crate) fn push_char(text: &mut String, c: char)
    ensures
        final(text)@ == old(text)@.push(c),
{
    text.push(c)
}

/// 10 to the power `e`.
spec fn pow10(e: nat) -> nat
    decreases e,
{
    if e == 0 {
        1
    } else {
        10 * pow10((e - 1) as nat)
    }
}

/// No number of 128 bits has more than 39 digits.
proof fn lemma_pow10_39()
    ensures
        10 * pow10(38) > u128::MAX,
{
    reveal_with_fuel(pow10, 40);
}

/// The number of digits of `n`.
pub fn decimal_len(n: u128) -> (len: usize)
    ensures
        len == decimal(n as nat).len(),
        1 <= len <= 39,
{
    let mut rest: u128 = n;
    let mut len: usize = 1;
    let ghost mut scale: nat = 1;
    while rest >= 10
        invariant
            1 <= len <= 39,
            len + decimal(rest as nat).len() == decimal(n as nat).len() + 1,
            scale == pow10((len - 1) as nat),
            rest * scale <= n,
        decreases rest,
    {
        proof {
            lemma_pow10_39();
            assert((rest / 10) * (10 * scale) <= n) by (nonlinear_arith)
                requires
                    rest * scale <= n,
            ;
            if len == 39 {
                assert(10 * scale > n);
                assert(false) by (nonlinear_arith)
                    requires
                        (rest / 10) * (10 * scale) <= n,
                        rest / 10 >= 1,
                        10 * scale > n,
                ;
            }
            scale = 10 * scale;
        }
        rest = rest / 10;
        len = len + 1;
    }
    len
}

/// Appends `n` in decimal.
pub fn push_decimal(out: &mut String, n: u128)
    ensures
        final(out)@ == old(out)@ + decimal(n as nat),
    decreases n,
{
    if n >= 10 {
        push_decimal(out, n / 10);
    }
    let digit: u8 = (n % 10) as u8;
    push_char(out, (48u8 + digit) as char);
    assert(out@ =~= old(out)@ + decimal(n as nat));
}

/// Appends `n` in decimal, right-aligned in a field of `width` characters.
pub fn push_right_aligned(out: &mut String, n: u128, width: usize)
    ensures
        final(out)@ == old(out)@ + right_aligned(decimal(n as nat), width as nat),
{
    let len = decimal_len(n);
    let mut filled: usize = len;
    while filled < width
        invariant
            len == decimal(n as nat).len(),
            len <= filled,
            filled <= width || filled == len,
            out@ == old(out)@ + spaces((filled - len) as nat),
        decreases width - filled,
    {
        push_char(out, ' ');
        filled = filled + 1;
        assert(out@ =~= old(out)@ + spaces((filled - len) as nat));
    }
    let ghost before = out@;
    push_decimal(out, n);
    proof {
        let digits = decimal(n as nat);
        if len >= width {
            assert(spaces(0) =~= Seq::<char>::empty());
            assert(before =~= old(out)@);
        } else {
            assert(before + digits =~= old(out)@ + (spaces((width - len) as nat) + digits));
        }
    }
}

} // verus!
