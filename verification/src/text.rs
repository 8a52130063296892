//! Decimal and hexadecimal texts.
use crate::fixed::B256;
use vstd::prelude::*;

verus! {

/// The digit for a value below sixteen, in lower case.
pub open spec fn digit(d: nat) -> char {
    seq!['0', '1', '2', '3', '4', '5', '6', '7', '8', '9', 'a', 'b', 'c', 'd', 'e', 'f'][d as int]
}

/// The decimal numeral of `n`, without leading zeros.
pub open spec fn decimal(n: nat) -> Seq<char>
    decreases n,
{
    if n < 10 {
        seq![digit(n)]
    } else {
        decimal(n / 10).push(digit(n % 10))
    }
}

/// The hexadecimal numeral of `n`, without leading zeros.
pub open spec fn hexadecimal(n: nat) -> Seq<char>
    decreases n,
{
    if n < 16 {
        seq![digit(n)]
    } else {
        hexadecimal(n / 16).push(digit(n % 16))
    }
}

/// Two hexadecimal digits for each byte.
pub open spec fn hex_digits(bytes: Seq<u8>) -> Seq<char> {
    Seq::new(
        2 * bytes.len(),
        |i: int|
            digit(
                if i % 2 == 0 {
                    bytes[i / 2] as nat / 16
                } else {
                    bytes[i / 2] as nat % 16
                },
            ),
    )
}

/// `0x` and two hexadecimal digits for each byte.
pub open spec fn hex_text(bytes: Seq<u8>) -> Seq<char> {
    "0x"@ + hex_digits(bytes)
}

/// `Some(0x..)` for a present hash and `None` for an absent one.
pub open spec fn optional_hash_text(hash: Option<B256>) -> Seq<char> {
    match hash {
        Some(hash) => "Some("@ + hex_text(hash.0@) + ")"@,
        None => "None"@,
    }
}

/// What a vector of texts holds.
pub open spec fn texts(v: Seq<String>) -> Seq<Seq<char>> {
    Seq::new(v.len(), |i: int| v[i]@)
}

/// What an optional text holds.
pub open spec fn optional_text(s: Option<String>) -> Option<Seq<char>> {
    match s {
        Some(s) => Some(s@),
        None => None,
    }
}

/// The digit for a value below sixteen as a text of one character.
fn digit_str(d: u8) -> (r: &'static str)
    requires
        d < 16,
    ensures
        r@ == seq![digit(d as nat)],
{
    proof {
        reveal_strlit("0");
        reveal_strlit("1");
        reveal_strlit("2");
        reveal_strlit("3");
        reveal_strlit("4");
        reveal_strlit("5");
        reveal_strlit("6");
        reveal_strlit("7");
        reveal_strlit("8");
        reveal_strlit("9");
        reveal_strlit("a");
        reveal_strlit("b");
        reveal_strlit("c");
        reveal_strlit("d");
        reveal_strlit("e");
        reveal_strlit("f");
    }
    match d {
        0 => "0",
        1 => "1",
        2 => "2",
        3 => "3",
        4 => "4",
        5 => "5",
        6 => "6",
        7 => "7",
        8 => "8",
        9 => "9",
        10 => "a",
        11 => "b",
        12 => "c",
        13 => "d",
        14 => "e",
        _ => "f",
    }
}

/// The decimal numeral of `n`.
pub fn decimal_text(n: u64) -> (r: String)
    ensures
        r@ == decimal(n as nat),
    decreases n,
{
    if n < 10 {
        String::from_str(digit_str(n as u8))
    } else {
        let mut r = decimal_text(n / 10);
        r.append(digit_str((n % 10) as u8));
        assert(r@ =~= decimal(n as nat));
        r
    }
}

/// The hexadecimal numeral of a byte.
pub fn hexadecimal_text(n: u8) -> (r: String)
    ensures
        r@ == hexadecimal(n as nat),
{
    reveal_with_fuel(hexadecimal, 2);
    if n < 16 {
        String::from_str(digit_str(n))
    } else {
        let mut r = String::from_str(digit_str(n / 16));
        r.append(digit_str(n % 16));
        assert(r@ =~= hexadecimal(n as nat));
        r
    }
}

/// `0x` and two hexadecimal digits for each byte.
pub fn hex_string(bytes: &[u8]) -> (r: String)
    ensures
        r@ == hex_text(bytes@),
{
    let mut r = String::from_str("0x");
    let mut i: usize = 0;
    assert(hex_digits(bytes@.take(0)) =~= Seq::<char>::empty());
    while i < bytes.len()
        invariant
            i <= bytes.len(),
            r@ == "0x"@ + hex_digits(bytes@.take(i as int)),
        decreases bytes.len() - i,
    {
        let ghost before = r@;
        r.append(digit_str(bytes[i] / 16));
        r.append(digit_str(bytes[i] % 16));
        proof {
            let all = hex_digits(bytes@.take(i + 1));
            let some = hex_digits(bytes@.take(i as int));
            let b = bytes@[i as int];
            let pair = seq![digit(b as nat / 16), digit(b as nat % 16)];
            assert(all =~= some + pair) by {
                assert forall|k: int| 0 <= k < all.len() implies #[trigger] all[k] == (some + pair)[k] by {
                    if k < 2 * i {
                        assert(bytes@.take(i + 1)[k / 2] == bytes@.take(i as int)[k / 2]);
                    }
                }
            }
            assert(r@ =~= "0x"@ + all);
        }
        i = i + 1;
    }
    assert(bytes@.take(i as int) =~= bytes@);
    r
}

/// `Some(0x..)` for a present hash and `None` for an absent one.
pub fn optional_hash_string(hash: &Option<B256>) -> (r: String)
    ensures
        r@ == optional_hash_text(*hash),
{
    match hash {
        Some(hash) => String::from_str("Some(").concat(hex_string(&hash.0).as_str()).concat(")"),
        None => String::from_str("None"),
    }
}

/// The value of a digit: zero to nine for `0` to `9`, ten to fifteen for `a` to `f`.
pub open spec fn digit_value(c: char) -> int {
    if c <= '9' {
        c as int - '0' as int
    } else {
        c as int - 'a' as int + 10
    }
}

/// Whether a character is a hexadecimal digit in lower case.
pub open spec fn is_digit(c: char) -> bool {
    '0' <= c <= '9' || 'a' <= c <= 'f'
}

/// The number that a numeral stands for in a base.
pub open spec fn numeral_value(base: int, text: Seq<char>) -> int
    decreases text.len(),
{
    if text.len() == 0 {
        0
    } else {
        numeral_value(base, text.drop_last()) * base + digit_value(text.last())
    }
}

/// Every digit stands for its value.
proof fn digits_have_their_value(d: nat)
    requires
        d < 16,
    ensures
        digit_value(digit(d)) == d,
        is_digit(digit(d)),
        d < 10 ==> '0' <= digit(d) <= '9',
{
}

/// A decimal numeral consists of decimal digits, starts with zero only for zero itself, and reads
/// back as the number that it was written for.
pub proof fn decimal_numerals_read_back(n: nat)
    ensures
        numeral_value(10, decimal(n)) == n,
        decimal(n).len() > 0,
        forall|i: int| 0 <= i < decimal(n).len() ==> '0' <= #[trigger] decimal(n)[i] <= '9',
        n > 0 ==> decimal(n)[0] != '0',
    decreases n,
{
    reveal_with_fuel(numeral_value, 2);
    if n < 10 {
        digits_have_their_value(n);
        assert(decimal(n).drop_last() =~= seq![]);
    } else {
        decimal_numerals_read_back(n / 10);
        digits_have_their_value(n % 10);
        assert(decimal(n).drop_last() =~= decimal(n / 10));
    }
}

/// A hexadecimal numeral consists of digits in lower case, starts with zero only for zero itself, and
/// reads back as the number that it was written for.
pub proof fn hexadecimal_numerals_read_back(n: nat)
    ensures
        numeral_value(16, hexadecimal(n)) == n,
        hexadecimal(n).len() > 0,
        forall|i: int| 0 <= i < hexadecimal(n).len() ==> is_digit(#[trigger] hexadecimal(n)[i]),
        n > 0 ==> hexadecimal(n)[0] != '0',
    decreases n,
{
    reveal_with_fuel(numeral_value, 2);
    if n < 16 {
        digits_have_their_value(n);
        assert(hexadecimal(n).drop_last() =~= seq![]);
    } else {
        hexadecimal_numerals_read_back(n / 16);
        digits_have_their_value(n % 16);
        assert(hexadecimal(n).drop_last() =~= hexadecimal(n / 16));
    }
}

/// A hexadecimal text starts with `0x` and goes on with two digits in lower case for each byte, in
/// order, that read back as the byte.
pub proof fn hexadecimal_texts_read_back(bytes: Seq<u8>)
    ensures
        hex_text(bytes).len() == 2 + 2 * bytes.len(),
        hex_text(bytes)[0] == '0',
        hex_text(bytes)[1] == 'x',
        forall|i: int|
            0 <= i < bytes.len() ==> digit_value(hex_text(bytes)[2 + 2 * i]) * 16 + digit_value(
                hex_text(bytes)[3 + 2 * i],
            ) == #[trigger] bytes[i],
        forall|i: int| 2 <= i < hex_text(bytes).len() ==> is_digit(#[trigger] hex_text(bytes)[i]),
{
    reveal_strlit("0x");
    let text = hex_text(bytes);
    assert forall|i: int| 0 <= i < bytes.len() implies digit_value(text[2 + 2 * i]) * 16
        + digit_value(text[3 + 2 * i]) == #[trigger] bytes[i] by {
        digits_have_their_value(bytes[i] as nat / 16);
        digits_have_their_value(bytes[i] as nat % 16);
        assert(text[2 + 2 * i] == hex_digits(bytes)[2 * i]);
        assert(text[3 + 2 * i] == hex_digits(bytes)[2 * i + 1]);
    }
    assert forall|i: int| 2 <= i < text.len() implies is_digit(#[trigger] text[i]) by {
        let k = i - 2;
        assert(text[i] == hex_digits(bytes)[k]);
        digits_have_their_value(bytes[k / 2] as nat / 16);
        digits_have_their_value(bytes[k / 2] as nat % 16);
    }
}

/// Different byte strings have different hexadecimal texts.
pub proof fn hexadecimal_texts_are_distinct(a: Seq<u8>, b: Seq<u8>)
    requires
        hex_text(a) == hex_text(b),
    ensures
        a == b,
{
    hexadecimal_texts_read_back(a);
    hexadecimal_texts_read_back(b);
    assert forall|i: int| 0 <= i < a.len() implies a[i] == b[i] by {
        assert(digit_value(hex_text(a)[2 + 2 * i]) * 16 + digit_value(hex_text(a)[3 + 2 * i])
            == a[i]);
        assert(digit_value(hex_text(b)[2 + 2 * i]) * 16 + digit_value(hex_text(b)[3 + 2 * i])
            == b[i]);
    }
    assert(a =~= b);
}

} // verus!
