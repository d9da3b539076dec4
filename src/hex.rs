use vstd::prelude::*;

verus! {

/// Whether `c` is one of `0-9`, `a-f`, `A-F`.
pub open spec fn is_hex_digit(c: char) -> bool {
    ('0' <= c && c <= '9') || ('a' <= c && c <= 'f') || ('A' <= c && c <= 'F')
}

/// The value of a hex digit, in `0..16`.
pub open spec fn hex_value(c: char) -> int {
    if '0' <= c && c <= '9' {
        c as int - '0' as int
    } else if 'a' <= c && c <= 'f' {
        c as int - 'a' as int + 10
    } else {
        c as int - 'A' as int + 10
    }
}

/// The upper-case hex digit of `d`, for `d` in `0..16`.
pub open spec fn upper_hex_char(d: int) -> char {
    seq!['0', '1', '2', '3', '4', '5', '6', '7', '8', '9', 'A', 'B', 'C', 'D', 'E', 'F'][d]
}

/// Two upper-case hex digits for a byte value.
pub open spec fn hex_byte_text(n: int) -> Seq<char> {
    seq![upper_hex_char(n / 16), upper_hex_char(n % 16)]
}

/// The byte value of the two hex digits of `s` that start at `i`.
pub open spec fn hex_pair_value(s: Seq<char>, i: int) -> int {
    16 * hex_value(s[i]) + hex_value(s[i + 1])
}

/// `s` with each hex digit written in upper case.
pub open spec fn upper_hex_text(s: Seq<char>) -> Seq<char> {
    Seq::new(s.len(), |i: int| upper_hex_char(hex_value(s[i])))
}

/// Each digit's value lies in `0..16`, and the upper-case digit of a value reads
/// back as that value.
pub proof fn lemma_hex_digit(c: char, d: int)
    requires
        0 <= d < 16,
    ensures
        is_hex_digit(c) ==> 0 <= hex_value(c) < 16,
        is_hex_digit(upper_hex_char(d)),
        hex_value(upper_hex_char(d)) == d,
{
    if d < 8 {
        assert(d == 0 || d == 1 || d == 2 || d == 3 || d == 4 || d == 5 || d == 6 || d == 7);
    } else {
        assert(d == 8 || d == 9 || d == 10 || d == 11 || d == 12 || d == 13 || d == 14 || d == 15);
    }
}

/// Reads one hex digit: its value, or `None` for any other character.
pub fn hex_digit_value(c: char) -> (r: Option<u8>)
    ensures
        is_hex_digit(c) <==> r.is_some(),
        r matches Some(v) ==> v as int == hex_value(c),
{
    if '0' <= c && c <= '9' {
        Some((c as u32 - '0' as u32) as u8)
    } else if 'a' <= c && c <= 'f' {
        Some((c as u32 - 'a' as u32 + 10) as u8)
    } else if 'A' <= c && c <= 'F' {
        Some((c as u32 - 'A' as u32 + 10) as u8)
    } else {
        None
    }
}

/// The upper-case hex digit of `d` as a one-character string.
pub fn upper_hex_digit(d: u8) -> (r: &'static str)
    requires
        d < 16,
    ensures
        r@ == seq![upper_hex_char(d as int)],
{
    proof {
        reveal_strlit("0");
        reveal_strlit("1");
        reveal_strlit("2");
        reveal_strlit("3");
        reveal_strlit("4");
        reveal_strlit("5");
        reveal_strlit("6");
        reveal_strlit("7");
        reveal_strlit("8");
        reveal_strlit("9");
        reveal_strlit("A");
        reveal_strlit("B");
        reveal_strlit("C");
        reveal_strlit("D");
        reveal_strlit("E");
        reveal_strlit("F");
    }
    let r = match d {
        0 => "0",
        1 => "1",
        2 => "2",
        3 => "3",
        4 => "4",
        5 => "5",
        6 => "6",
        7 => "7",
        8 => "8",
        9 => "9",
        10 => "A",
        11 => "B",
        12 => "C",
        13 => "D",
        14 => "E",
        _ => "F",
    };
    assert(r@ =~= seq![upper_hex_char(d as int)]);
    r
}

/// Appends the two upper-case hex digits of `n` to `out`.
pub fn push_hex_byte(out: &mut String, n: u8)
    ensures
        final(out)@ == old(out)@ + hex_byte_text(n as int),
{
    let hi = upper_hex_digit(n / 16);
    let lo = upper_hex_digit(n % 16);
    out.append(hi);
    out.append(lo);
    assert(out@ =~= old(out)@ + hex_byte_text(n as int));
}

/// A byte read from two hex digits is written back as the same two digits in
/// upper case; and the two digits written for a byte read back as that byte.
pub proof fn lemma_hex_byte_round_trip(hi: char, lo: char, n: int)
    requires
        is_hex_digit(hi),
        is_hex_digit(lo),
        0 <= n < 256,
    ensures
        hex_byte_text(16 * hex_value(hi) + hex_value(lo))
            == seq![upper_hex_char(hex_value(hi)), upper_hex_char(hex_value(lo))],
        is_hex_digit(hex_byte_text(n)[0]),
        is_hex_digit(hex_byte_text(n)[1]),
        16 * hex_value(hex_byte_text(n)[0]) + hex_value(hex_byte_text(n)[1]) == n,
{
    lemma_hex_digit(hi, 0);
    lemma_hex_digit(lo, 0);
    let v = 16 * hex_value(hi) + hex_value(lo);
    vstd::arithmetic::div_mod::lemma_fundamental_div_mod_converse(v, 16, hex_value(hi), hex_value(lo));
    lemma_hex_digit(hi, n / 16);
    lemma_hex_digit(hi, n % 16);
}

} // verus!
