//! Numbers as text: decimal, and lowercase hexadecimal bytes.
use vstd::prelude::*;

verus! {

/// The digit that stands for a number below sixteen.
pub open spec fn digit(n: int) -> char {
    if n < 10 {
        ('0' as u32 + n) as char
    } else {
        ('a' as u32 + (n - 10)) as char
    }
}

/// A number in decimal, without leading zeros.
pub open spec fn decimal(n: nat) -> Seq<char>
    decreases n,
{
    if n < 10 {
        seq![digit(n as int)]
    } else {
        decimal(n / 10).push(digit((n % 10) as int))
    }
}

/// A number in decimal, two characters wide at least.
pub open spec fn decimal2(n: nat) -> Seq<char> {
    if n < 10 {
        seq!['0', digit(n as int)]
    } else {
        decimal(n)
    }
}

/// Whether `c` is one of `0` to `9`.
pub open spec fn is_digit(c: char) -> bool {
    '0' <= c <= '9'
}

/// Whether `c` is one of `0` to `9` or `a` to `f`.
pub open spec fn is_hex(c: char) -> bool {
    is_digit(c) || 'a' <= c <= 'f'
}

/// Whether a text is made of decimal digits, at least one.
pub open spec fn all_digits(text: Seq<char>) -> bool {
    text.len() > 0 && forall|i: int| 0 <= i < text.len() ==> is_digit(#[trigger] text[i])
}

/// The number that a row of decimal digits stands for.
pub open spec fn value(text: Seq<char>) -> nat
    decreases text.len(),
{
    if text.len() == 0 {
        0
    } else {
        (value(text.drop_last()) * 10 + (text.last() as u32 - '0' as u32)) as nat
    }
}

/// A byte in two lowercase hexadecimal digits.
pub open spec fn hex_byte(b: u8) -> Seq<char> {
    seq![digit(b as int / 16), digit(b as int % 16)]
}

/// Bytes in lowercase hexadecimal, two digits each.
pub open spec fn hex(bytes: Seq<u8>) -> Seq<char>
    decreases bytes.len(),
{
    if bytes.len() == 0 {
        Seq::empty()
    } else {
        hex(bytes.drop_last()) + hex_byte(bytes.last())
    }
}

/// The digit that stands for a number below sixteen.
pub fn digit_of(n: u8) -> (r: char)
    requires
        n < 16,
    ensures
        r == digit(n as int),
{
    if n < 10 {
        (48 + n) as char
    } else {
        (97 + (n - 10)) as char
    }
}

/// A number in decimal.
pub fn decimal_of(n: u64) -> (r: String)
    ensures
        r@ == decimal(n as nat),
    decreases n,
{
    if n < 10 {
        let mut out = String::new();
        out.push(digit_of(n as u8));
        assert(out@ =~= decimal(n as nat));
        out
    } else {
        let mut out = decimal_of(n / 10);
        out.push(digit_of((n % 10) as u8));
        out
    }
}

/// A count in decimal.
pub fn count_of(n: usize) -> (r: String)
    ensures
        r@ == decimal(n as nat),
{
    decimal_of(n as u64)
}

/// A number in decimal, two characters wide at least.
pub fn decimal2_of(n: u64) -> (r: String)
    ensures
        r@ == decimal2(n as nat),
{
    if n < 10 {
        let mut out = String::new();
        out.push('0');
        out.push(digit_of(n as u8));
        assert(out@ =~= decimal2(n as nat));
        out
    } else {
        decimal_of(n)
    }
}

/// Bytes in lowercase hexadecimal.
pub fn hex_of(bytes: &Vec<u8>) -> (r: String)
    ensures
        r@ == hex(bytes@),
{
    let mut out = String::new();
    let mut i: usize = 0;
    while i < bytes.len()
        invariant
            i <= bytes.len(),
            out@ == hex(bytes@.take(i as int)),
        decreases bytes.len() - i,
    {
        let b = bytes[i];
        let ghost before = out@;
        out.push(digit_of(b / 16));
        out.push(digit_of(b % 16));
        assert(out@ =~= before + hex_byte(b));
        assert(bytes@.take(i + 1).drop_last() == bytes@.take(i as int));
        i = i + 1;
    }
    assert(bytes@.take(i as int) == bytes@);
    out
}

/// The digits of a number are decimal digits, and stand for that number.
pub proof fn law_decimal_round_trips(n: nat)
    ensures
        all_digits(decimal(n)),
        value(decimal(n)) == n,
    decreases n,
{
    if n < 10 {
        assert(decimal(n).drop_last() =~= Seq::<char>::empty());
        reveal_with_fuel(value, 2);
    } else {
        law_decimal_round_trips(n / 10);
        assert(decimal(n).drop_last() =~= decimal(n / 10));
    }
}

/// The hexadecimal text of bytes has two digits for each, all of them
/// lowercase hexadecimal.
pub proof fn law_hex_is_hex(bytes: Seq<u8>)
    ensures
        hex(bytes).len() == 2 * bytes.len(),
        forall|i: int| 0 <= i < hex(bytes).len() ==> is_hex(#[trigger] hex(bytes)[i]),
    decreases bytes.len(),
{
    if bytes.len() > 0 {
        law_hex_is_hex(bytes.drop_last());
        let before = hex(bytes.drop_last());
        assert forall|i: int| 0 <= i < hex(bytes).len() implies is_hex(#[trigger] hex(bytes)[i]) by {
            if i < before.len() {
                assert(is_hex(before[i]));
            }
        }
    }
}

/// A number's decimal text has no leading zero, and a longer number is the
/// shorter one with a digit behind it.
pub proof fn law_decimal_has_no_leading_zero(n: u64, r: String)
    requires
        call_ensures(decimal_of, (n,), r),
    ensures
        all_digits(r@),
        value(r@) == n,
        r@.len() > 1 ==> r@[0] != '0',
{
    law_decimal_round_trips(n as nat);
    lemma_leading(n as nat);
}

proof fn lemma_leading(n: nat)
    ensures
        decimal(n).len() >= 1,
        n > 0 ==> decimal(n)[0] != '0',
    decreases n,
{
    if n >= 10 {
        lemma_leading(n / 10);
    }
}

/// A number two characters wide at least is the number, with a zero before it
/// where it has one digit.
pub proof fn law_decimal2_is_padded(n: u64, wide: String, count: usize, counted: String)
    requires
        call_ensures(decimal2_of, (n,), wide),
        call_ensures(count_of, (count,), counted),
    ensures
        wide@.len() >= 2,
        n < 10 ==> wide@.len() == 2 && wide@[0] == '0',
        all_digits(wide@),
        value(wide@) == n,
        value(counted@) == count,
        all_digits(counted@),
{
    law_decimal_round_trips(n as nat);
    law_decimal_round_trips(count as nat);
    if n < 10 {
        assert(wide@.drop_last() =~= seq!['0']);
        assert(seq!['0'].drop_last() =~= Seq::<char>::empty());
        reveal_with_fuel(value, 3);
        assert(is_digit(wide@[0]) && is_digit(wide@[1]));
    } else {
        assert(n as nat >= 10);
        law_decimal_round_trips((n as nat) / 10);
        assert(decimal((n as nat) / 10).len() > 0);
    }
}

/// Bytes are written in order, each as its high digit and then its low one, and a
/// digit stands for its number: `0` to `9`, then `a` to `f`.
pub proof fn law_hex_writes_each_byte_in_place(bytes: Vec<u8>, r: String, i: int)
    requires
        call_ensures(hex_of, (&bytes,), r),
        0 <= i < bytes.len(),
    ensures
        r@.len() == 2 * bytes.len(),
        r@[2 * i] == digit(bytes@[i] as int / 16),
        r@[2 * i + 1] == digit(bytes@[i] as int % 16),
        digit(0) == '0' && digit(9) == '9' && digit(10) == 'a' && digit(15) == 'f',
{
    law_hex_is_hex(bytes@);
    lemma_hex_at(bytes@, i);
}

proof fn lemma_hex_at(bytes: Seq<u8>, i: int)
    requires
        0 <= i < bytes.len(),
    ensures
        hex(bytes).len() == 2 * bytes.len(),
        hex(bytes)[2 * i] == digit(bytes[i] as int / 16),
        hex(bytes)[2 * i + 1] == digit(bytes[i] as int % 16),
    decreases bytes.len(),
{
    law_hex_is_hex(bytes);
    law_hex_is_hex(bytes.drop_last());
    if i < bytes.len() - 1 {
        lemma_hex_at(bytes.drop_last(), i);
    }
}

} // verus!
