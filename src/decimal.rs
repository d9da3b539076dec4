use vstd::prelude::*;
use crate::hex::{upper_hex_char, upper_hex_digit};

verus! {

/// The decimal digits of `n`, most significant first, with no leading zero
/// (zero itself is the single digit `0`).
pub open spec fn decimal_text(n: nat) -> Seq<char>
    decreases n,
{
    if n < 10 {
        seq![upper_hex_char(n as int)]
    } else {
        decimal_text(n / 10).push(upper_hex_char((n % 10) as int))
    }
}

/// The decimal digits of `n`, right-aligned in a field of `width` characters by
/// leading spaces; a number wider than the field is written whole.
pub open spec fn padded_decimal(n: nat, width: nat) -> Seq<char> {
    let t = decimal_text(n);
    if t.len() >= width {
        t
    } else {
        Seq::new((width - t.len()) as nat, |i: int| ' ') + t
    }
}

/// The digit characters of `ds`, taken from the last element to the first.
pub open spec fn digits_reversed(ds: Seq<u8>) -> Seq<char> {
    Seq::new(ds.len(), |i: int| upper_hex_char(ds[ds.len() - 1 - i] as int))
}

/// Appends `n` in decimal, right-aligned in a field of `width` characters.
pub fn push_padded_decimal(out: &mut String, n: u16, width: usize)
    ensures
        final(out)@ == old(out)@ + padded_decimal(n as nat, width as nat),
{
    let mut digits: Vec<u8> = Vec::new();
    let mut rest: u16 = n;
    digits.push((rest % 10) as u8);
    rest = rest / 10;
    proof {
        assert(digits_reversed(digits@) =~= seq![upper_hex_char((n % 10) as int)]);
        assert(pow10(1) == 10 * pow10(0));
        assert((n / 10) as int * 10 <= n);
        if n >= 10 {
            assert(decimal_text(n as nat) == decimal_text(rest as nat).push(
                upper_hex_char((n % 10) as int),
            ));
        }
    }
    while rest > 0
        invariant
            0 < digits@.len() <= 5,
            rest as int * pow10(digits@.len()) <= n,
            forall|i: int| 0 <= i < digits@.len() ==> #[trigger] digits@[i] < 10,
            decimal_text(n as nat) == (if rest > 0 {
                decimal_text(rest as nat)
            } else {
                Seq::empty()
            }) + digits_reversed(digits@),
        decreases rest,
    {
        let d = (rest % 10) as u8;
        let ghost old_digits = digits@;
        let ghost old_rest = rest;
        digits.push(d);
        rest = rest / 10;
        proof {
            assert(digits_reversed(digits@) =~= seq![upper_hex_char(d as int)] + digits_reversed(
                old_digits,
            ));
            if old_rest >= 10 {
                assert(decimal_text(old_rest as nat) == decimal_text(rest as nat).push(
                    upper_hex_char(d as int),
                ));
                assert(decimal_text(n as nat) =~= decimal_text(rest as nat)
                    + digits_reversed(digits@));
            } else {
                assert(decimal_text(n as nat) =~= digits_reversed(digits@));
            }
            lemma_pow10_step(old_rest as int, old_digits.len(), n as int);
        }
    }
    let len = digits.len();
    let mut i: usize = len;
    while i < width
        invariant
            len <= i <= width || i == len,
            out@ == old(out)@ + Seq::new((i - len) as nat, |k: int| ' '),
        decreases width - i,
    {
        out.append(" ");
        proof {
            reveal_strlit(" ");
        }
        assert(out@ =~= old(out)@ + Seq::new((i + 1 - len) as nat, |k: int| ' '));
        i = i + 1;
    }
    let ghost pad = out@;
    let mut j: usize = len;
    while j > 0
        invariant
            j <= len == digits@.len(),
            forall|k: int| 0 <= k < digits@.len() ==> #[trigger] digits@[k] < 10,
            out@ == pad + digits_reversed(digits@).take(len - j),
        decreases j,
    {
        let s = upper_hex_digit(digits[j - 1]);
        out.append(s);
        assert(out@ =~= pad + digits_reversed(digits@).take(len - (j - 1)));
        j = j - 1;
    }
    assert(digits_reversed(digits@).take(len as int) =~= decimal_text(n as nat));
    assert(out@ =~= old(out)@ + padded_decimal(n as nat, width as nat));
}

/// Three channel values, each right-aligned in `width` characters, separated by
/// a comma and a space.
pub open spec fn channels_text(a: nat, b: nat, c: nat, width: nat) -> Seq<char> {
    padded_decimal(a, width) + ", "@ + padded_decimal(b, width) + ", "@ + padded_decimal(c, width)
}

/// Writes three channel values as `channels_text` describes.
pub fn format_channels(a: u16, b: u16, c: u16, width: usize) -> (s: String)
    ensures
        s@ == channels_text(a as nat, b as nat, c as nat, width as nat),
{
    let mut s = String::new();
    push_padded_decimal(&mut s, a, width);
    s.append(", ");
    push_padded_decimal(&mut s, b, width);
    s.append(", ");
    push_padded_decimal(&mut s, c, width);
    assert(s@ =~= channels_text(a as nat, b as nat, c as nat, width as nat));
    s
}

/// Ten to the power `k`.
pub open spec fn pow10(k: nat) -> int
    decreases k,
{
    if k == 0 {
        1
    } else {
        10 * pow10((k - 1) as nat)
    }
}

proof fn lemma_pow10_step(rest: int, k: nat, n: int)
    requires
        rest > 0,
        k <= 5,
        rest * pow10(k) <= n,
        n <= u16::MAX,
    ensures
        k + 1 <= 5,
        (rest / 10) * pow10(k + 1) <= n,
{
    assert(pow10(k + 1) == 10 * pow10(k));
    assert(pow10(0) == 1);
    assert(pow10(1) == 10);
    assert(pow10(2) == 100);
    assert(pow10(3) == 1000);
    assert(pow10(4) == 10000);
    assert(pow10(5) == 100000);
    if k == 5 {
        assert(rest * pow10(k) >= 100000) by (nonlinear_arith)
            requires
                rest >= 1,
                pow10(k) == 100000,
        ;
    }
    assert((rest / 10) * (10 * pow10(k)) <= rest * pow10(k)) by (nonlinear_arith)
        requires
            rest > 0,
            pow10(k) >= 1,
    ;
}

} // verus!
