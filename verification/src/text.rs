//! Numbers and four-character codes as text.
use vstd::prelude::*;
use vstd::string::*;
use vstd::utf8::{decode_utf8, valid_utf8};

verus! {

/// The character of a digit below sixteen.
pub open spec fn digit_char(d: int) -> char {
    if d < 10 {
        ('0' as int + d) as char
    } else {
        ('a' as int + d - 10) as char
    }
}

/// `n` in base ten, without leading zeros.
pub open spec fn decimal_digits(n: nat) -> Seq<char>
    decreases n,
{
    if n < 10 {
        seq![digit_char(n as int)]
    } else {
        decimal_digits(n / 10).push(digit_char((n % 10) as int))
    }
}

/// `n` in base sixteen, without leading zeros.
pub open spec fn hexadecimal_digits(n: nat) -> Seq<char>
    decreases n,
{
    if n < 16 {
        seq![digit_char(n as int)]
    } else {
        hexadecimal_digits(n / 16).push(digit_char((n % 16) as int))
    }
}

/// `n` in decimal.
pub open spec fn decimal(n: int) -> Seq<char> {
    if n < 0 {
        seq!['-'] + decimal_digits((-n) as nat)
    } else {
        decimal_digits(n as nat)
    }
}

/// `n` in hexadecimal behind `0x`.
pub open spec fn hexadecimal(n: nat) -> Seq<char> {
    seq!['0', 'x'] + hexadecimal_digits(n)
}

fn digit_text(d: u64) -> (t: &'static str)
    requires
        d < 16,
    ensures
        t@ == seq![digit_char(d as int)],
{
    proof {
        reveal_strlit("0");
        reveal_strlit("1");
        reveal_strlit("2");
        reveal_strlit("3");
        reveal_strlit("4");
        reveal_strlit("5");
        reveal_strlit("6");
        reveal_strlit("7");
        reveal_strlit("8");
        reveal_strlit("9");
        reveal_strlit("a");
        reveal_strlit("b");
        reveal_strlit("c");
        reveal_strlit("d");
        reveal_strlit("e");
        reveal_strlit("f");
    }
    match d {
        0 => "0",
        1 => "1",
        2 => "2",
        3 => "3",
        4 => "4",
        5 => "5",
        6 => "6",
        7 => "7",
        8 => "8",
        9 => "9",
        10 => "a",
        11 => "b",
        12 => "c",
        13 => "d",
        14 => "e",
        _ => "f",
    }
}

fn push_decimal_digits(out: &mut String, n: u64)
    ensures
        final(out)@ == old(out)@ + decimal_digits(n as nat),
    decreases n,
{
    let ghost start = out@;
    if n >= 10 {
        push_decimal_digits(out, n / 10);
    }
    out.append(digit_text(n % 10));
    assert(out@ =~= start + decimal_digits(n as nat));
}

fn push_hexadecimal_digits(out: &mut String, n: u64)
    ensures
        final(out)@ == old(out)@ + hexadecimal_digits(n as nat),
    decreases n,
{
    let ghost start = out@;
    if n >= 16 {
        push_hexadecimal_digits(out, n / 16);
    }
    out.append(digit_text(n % 16));
    assert(out@ =~= start + hexadecimal_digits(n as nat));
}

/// Appends `n` in decimal.
pub fn push_decimal(out: &mut String, n: i64)
    ensures
        final(out)@ == old(out)@ + decimal(n as int),
{
    if n < 0 {
        proof {
            reveal_strlit("-");
        }
        out.append("-");
        let magnitude: u64 = (-(n as i128)) as u64;
        push_decimal_digits(out, magnitude);
        assert(old(out)@ + "-"@ + decimal_digits((-n) as nat) =~= old(out)@ + decimal(n as int));
    } else {
        push_decimal_digits(out, n as u64);
    }
}

/// Appends `n` in hexadecimal behind `0x`.
pub fn push_hexadecimal(out: &mut String, n: u32)
    ensures
        final(out)@ == old(out)@ + hexadecimal(n as nat),
{
    proof {
        reveal_strlit("0x");
    }
    out.append("0x");
    push_hexadecimal_digits(out, n as u64);
    assert(old(out)@ + "0x"@ + hexadecimal_digits(n as nat) =~= old(out)@ + hexadecimal(n as nat));
}

/// Whether an owned text and a borrowed one are the same.
pub fn same_text(a: &String, b: &str) -> (same: bool)
    ensures
        same == (a@ == b@),
{
    let owned = b.to_owned();
    *a == owned
}

/// What decoding `bytes` as UTF-8 gives, every malformed stretch replaced.
pub uninterp spec fn utf8_lossy(bytes: Seq<u8>) -> Seq<char>;

/// Decodes `bytes` as UTF-8 with `String::from_utf8_lossy`, which replaces
/// what is not valid UTF-8 by replacement characters.
///
/// Of its result two things are taken on trust: that it is a function of the
/// bytes alone, and that bytes which are valid UTF-8 come out as the characters
/// that they encode.
#[verifier::external_body]
fn from_utf8_lossy(bytes: &[u8]) -> (text: String)
    ensures
        text@ == utf8_lossy(bytes@),
        valid_utf8(bytes@) ==> text@ == decode_utf8(bytes@),
{
    String::from_utf8_lossy(bytes).into_owned()
}

/// ASCII bytes are valid UTF-8, and encode the characters of the same codes.
proof fn ascii_is_utf8(bytes: Seq<u8>)
    requires
        forall|i: int| 0 <= i < bytes.len() ==> #[trigger] bytes[i] < 0x80,
    ensures
        valid_utf8(bytes),
        decode_utf8(bytes) == bytes.map_values(|b: u8| b as char),
    decreases bytes.len(),
{
    if bytes.len() > 0 {
        let first = bytes[0];
        let rest = bytes.subrange(1, bytes.len() as int);
        assert(first & 0x7F == first) by (bit_vector)
            requires
                first < 0x80,
        ;
        ascii_is_utf8(rest);
        assert(seq![first as char] + rest.map_values(|b: u8| b as char) =~= bytes.map_values(
            |b: u8| b as char,
        ));
    } else {
        assert(bytes.map_values(|b: u8| b as char) =~= Seq::empty());
    }
}

/// The bytes of `s` before the first zero byte, or all of them.
pub open spec fn until_zero(s: Seq<u8>) -> Seq<u8>
    decreases s.len(),
{
    if s.len() == 0 || s[0] == 0 {
        Seq::empty()
    } else {
        seq![s[0]] + until_zero(s.skip(1))
    }
}

/// The bytes of a zero-terminated name field hold no zero.
proof fn until_zero_is(s: Seq<u8>, n: int)
    requires
        0 <= n <= s.len(),
        n < s.len() ==> s[n] == 0,
        forall|i: int| 0 <= i < n ==> #[trigger] s[i] != 0,
    ensures
        until_zero(s) == s.take(n),
    decreases s.len(),
{
    if n > 0 {
        until_zero_is(s.skip(1), n - 1);
        assert(seq![s[0]] + s.skip(1).take(n - 1) =~= s.take(n));
    } else {
        assert(s.take(0) =~= Seq::empty());
    }
}

/// The text of a zero-terminated name field: what stands before the first zero
/// byte, or the whole field where there is none.
pub fn c_name(field: &[u8]) -> (text: String)
    ensures
        text@ == utf8_lossy(until_zero(field@)),
        valid_utf8(until_zero(field@)) ==> text@ == decode_utf8(until_zero(field@)),
{
    let mut n: usize = 0;
    while n < field.len() && field[n] != 0
        invariant
            n <= field@.len(),
            forall|i: int| 0 <= i < n ==> #[trigger] field@[i] != 0,
        decreases field@.len() - n,
    {
        n = n + 1;
    }
    proof {
        until_zero_is(field@, n as int);
    }
    let name = vstd::slice::slice_subrange(field, 0, n);
    assert(name@ =~= field@.take(n as int));
    from_utf8_lossy(name)
}

/// The four bytes of a code, the most significant first.
pub open spec fn fourcc_bytes(code: u32) -> Seq<u8> {
    seq![
        (code / 0x100_0000) as u8,
        (code / 0x1_0000 % 0x100) as u8,
        (code / 0x100 % 0x100) as u8,
        (code % 0x100) as u8,
    ]
}

/// A four-character code as text. Bytes that are not UTF-8 are replaced, so two
/// codes may read the same: codes are compared as numbers.
pub open spec fn fourcc_text(code: u32) -> Seq<char> {
    utf8_lossy(fourcc_bytes(code))
}

/// A four-character code as text.
pub fn fourcc_to_string(code: u32) -> (text: String)
    ensures
        text@ == fourcc_text(code),
        valid_utf8(fourcc_bytes(code)) ==> text@ == decode_utf8(fourcc_bytes(code)),
        (forall|i: int| 0 <= i < 4 ==> #[trigger] fourcc_bytes(code)[i] < 0x80) ==> text@
            == fourcc_bytes(code).map_values(|b: u8| b as char),
{
    let bytes: [u8; 4] = [
        (code / 0x100_0000) as u8,
        (code / 0x1_0000 % 0x100) as u8,
        (code / 0x100 % 0x100) as u8,
        (code % 0x100) as u8,
    ];
    assert(bytes@ =~= fourcc_bytes(code));
    proof {
        if forall|i: int| 0 <= i < 4 ==> #[trigger] fourcc_bytes(code)[i] < 0x80 {
            ascii_is_utf8(fourcc_bytes(code));
        }
    }
    from_utf8_lossy(&bytes)
}

/// The value of a digit.
pub open spec fn digit_value(c: char) -> int {
    if '0' <= c <= '9' {
        c as int - '0' as int
    } else {
        c as int - 'a' as int + 10
    }
}

/// The number that digits spell, the first counting most.
pub open spec fn spelled(digits: Seq<char>, base: int) -> int
    decreases digits.len(),
{
    if digits.len() == 0 {
        0
    } else {
        base * spelled(digits.drop_last(), base) + digit_value(digits.last())
    }
}

/// Writing a number in decimal: digits alone, no leading zero but for zero itself,
/// and they spell the number.
pub proof fn decimal_digits_spell_the_number(n: nat)
    ensures
        decimal_digits(n).len() > 0,
        spelled(decimal_digits(n), 10) == n,
        forall|i: int|
            0 <= i < decimal_digits(n).len() ==> '0' <= #[trigger] decimal_digits(n)[i] <= '9',
        n > 0 ==> decimal_digits(n)[0] != '0',
        n == 0 ==> decimal_digits(n).len() == 1,
    decreases n,
{
    reveal_with_fuel(spelled, 2);
    if n < 10 {
        assert(decimal_digits(n).drop_last() =~= Seq::empty());
    } else {
        decimal_digits_spell_the_number(n / 10);
        assert(decimal_digits(n).drop_last() =~= decimal_digits(n / 10));
    }
}

/// The same in hexadecimal, in lower case.
pub proof fn hexadecimal_digits_spell_the_number(n: nat)
    ensures
        hexadecimal_digits(n).len() > 0,
        spelled(hexadecimal_digits(n), 16) == n,
        forall|i: int|
            0 <= i < hexadecimal_digits(n).len() ==> '0' <= #[trigger] hexadecimal_digits(n)[i]
                <= '9' || 'a' <= hexadecimal_digits(n)[i] <= 'f',
        n > 0 ==> hexadecimal_digits(n)[0] != '0',
        n == 0 ==> hexadecimal_digits(n).len() == 1,
    decreases n,
{
    reveal_with_fuel(spelled, 2);
    if n < 16 {
        assert(hexadecimal_digits(n).drop_last() =~= Seq::empty());
    } else {
        hexadecimal_digits_spell_the_number(n / 16);
        assert(hexadecimal_digits(n).drop_last() =~= hexadecimal_digits(n / 16));
    }
}

/// A negative number is its size behind a minus sign, and a hexadecimal one stands
/// behind its mark.
pub proof fn a_sign_comes_first(n: int, h: nat)
    ensures
        n >= 0 ==> decimal(n) == decimal_digits(n as nat),
        n < 0 ==> decimal(n)[0] == '-' && decimal(n).skip(1) == decimal_digits((-n) as nat),
        hexadecimal(h)[0] == '0',
        hexadecimal(h)[1] == 'x',
        hexadecimal(h).skip(2) == hexadecimal_digits(h),
{
    if n < 0 {
        assert(decimal(n).skip(1) =~= decimal_digits((-n) as nat));
    }
    assert(hexadecimal(h).skip(2) =~= hexadecimal_digits(h));
}

/// A name ends before its first zero byte, and holds everything before it.
pub proof fn a_name_ends_at_its_first_zero(s: Seq<u8>, i: int)
    ensures
        until_zero(s).len() <= s.len(),
        until_zero(s).len() < s.len() ==> s[until_zero(s).len() as int] == 0,
        0 <= i < until_zero(s).len() ==> until_zero(s)[i] == s[i] && s[i] != 0,
    decreases s.len(),
{
    if s.len() > 0 && s[0] != 0 {
        let rest = s.skip(1);
        a_name_ends_at_its_first_zero(rest, i - 1);
        assert(until_zero(s).len() == 1 + until_zero(rest).len());
        if until_zero(s).len() < s.len() {
            assert(rest[until_zero(rest).len() as int] == s[until_zero(s).len() as int]);
        }
        if 0 < i < until_zero(s).len() {
            assert(until_zero(s)[i] == until_zero(rest)[i - 1]);
            assert(rest[i - 1] == s[i]);
        }
    }
}

/// A code is spelled by its four bytes, the highest first.
pub proof fn a_code_is_spelled_highest_byte_first(code: u32)
    ensures
        fourcc_bytes(code).len() == 4,
        code == ((fourcc_bytes(code)[0] * 256 + fourcc_bytes(code)[1]) * 256 + fourcc_bytes(
            code,
        )[2]) * 256 + fourcc_bytes(code)[3],
        fourcc_text(code) == utf8_lossy(fourcc_bytes(code)),
{
}

} // verus!
