//! Decimal and hexadecimal renderings of numbers, as the record templates use
//! them.

use vstd::prelude::*;

verus! {

/// `String::push` of the standard library: the character is appended at the
/// end and the rest of the string is left as it was.
pub assume_specification[ String::push ](s: &mut String, ch: char)
    ensures
        final(s)@ == old(s)@.push(ch),
;

/// The character that stands for the decimal digit `d`.
pub open spec fn digit_char(d: nat) -> char {
    ((48 + d) as u8) as char
}

/// The character that stands for the hexadecimal digit `d`, in lower case.
pub open spec fn hex_char(d: nat) -> char {
    if d < 10 {
        ((48 + d) as u8) as char
    } else {
        ((87 + d) as u8) as char
    }
}

/// `n` written in base ten, without leading zeros.
pub open spec fn decimal_text(n: nat) -> Seq<char>
    decreases n,
{
    if n < 10 {
        seq![digit_char(n)]
    } else {
        decimal_text(n / 10).push(digit_char(n % 10))
    }
}

/// The lowest `width` hexadecimal digits of `v`, most significant first, in
/// lower case and padded with zeros.
pub open spec fn hex_text(v: nat, width: nat) -> Seq<char>
    decreases width,
{
    if width == 0 {
        Seq::empty()
    } else {
        hex_text(v / 16, (width - 1) as nat).push(hex_char(v % 16))
    }
}

/// A rendering in hexadecimal has exactly the width asked for.
pub proof fn lemma_hex_text_len(v: nat, width: nat)
    ensures
        hex_text(v, width).len() == width,
    decreases width,
{
    if width > 0 {
        lemma_hex_text_len(v / 16, (width - 1) as nat);
    }
}

/// Sixteen to the power of `n`.
pub open spec fn sixteen_to(n: nat) -> nat
    decreases n,
{
    if n == 0 {
        1
    } else {
        16 * sixteen_to((n - 1) as nat)
    }
}

/// The first `keep` digits of a rendering in `width` hexadecimal digits are
/// the rendering of the number without its lowest `width - keep` digits.
pub proof fn lemma_hex_text_leading(v: nat, width: nat, keep: nat)
    requires
        keep <= width,
    ensures
        sixteen_to((width - keep) as nat) > 0,
        hex_text(v, width).subrange(0, keep as int) == hex_text(
            v / sixteen_to((width - keep) as nat),
            keep,
        ),
    decreases width - keep,
{
    lemma_hex_text_len(v, width);
    if keep == width {
        assert(sixteen_to(0) == 1);
        assert(v / 1 == v);
        assert(hex_text(v, width).subrange(0, keep as int) =~= hex_text(v, width));
    } else {
        let rest = (width - 1 - keep) as nat;
        let power = sixteen_to(rest);
        lemma_hex_text_leading(v / 16, (width - 1) as nat, keep);
        lemma_hex_text_len(v / 16, (width - 1) as nat);
        assert(hex_text(v, width).subrange(0, keep as int) =~= hex_text(
            v / 16,
            (width - 1) as nat,
        ).subrange(0, keep as int));
        assert(sixteen_to((width - keep) as nat) == 16 * power);
        assert((v / 16) / power == v / (16 * power)) by {
            vstd::arithmetic::div_mod::lemma_div_denominator(v as int, 16, power as int);
        }
    }
}

/// Two numbers below sixteen to the power of `width` that are rendered
/// alike in `width` hexadecimal digits are the same number.
pub proof fn lemma_hex_text_injective(a: nat, b: nat, width: nat)
    requires
        a < sixteen_to(width),
        b < sixteen_to(width),
        hex_text(a, width) == hex_text(b, width),
    ensures
        a == b,
    decreases width,
{
    if width > 0 {
        let shorter = (width - 1) as nat;
        lemma_hex_text_len(a / 16, shorter);
        lemma_hex_text_len(b / 16, shorter);
        let left = hex_text(a / 16, shorter).push(hex_char(a % 16));
        let right = hex_text(b / 16, shorter).push(hex_char(b % 16));
        assert(left.last() == right.last());
        assert(left.drop_last() =~= hex_text(a / 16, shorter));
        assert(right.drop_last() =~= hex_text(b / 16, shorter));
        assert(a % 16 == b % 16);
        lemma_hex_text_injective(a / 16, b / 16, shorter);
    }
}

/// Writes `n` in base ten.
pub fn decimal_string(n: usize) -> (text: String)
    ensures
        text@ == decimal_text(n as nat),
    decreases n,
{
    if n < 10 {
        let mut text = String::new();
        text.push((48u8 + n as u8) as char);
        text
    } else {
        let mut text = decimal_string(n / 10);
        text.push((48u8 + (n % 10) as u8) as char);
        text
    }
}

} // verus!
