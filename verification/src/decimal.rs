//! Decimal text of unsigned integers, as it stands in a byte-range request,
//! in a message about a status code, and in the header that names the size
//! of a resource.

use vstd::prelude::*;
use vstd::string::*;

verus! {

/// The character that writes the digit `d`.
pub open spec fn digit_char(d: nat) -> char
    recommends
        d < 10,
{
    if d == 0 {
        '0'
    } else if d == 1 {
        '1'
    } else if d == 2 {
        '2'
    } else if d == 3 {
        '3'
    } else if d == 4 {
        '4'
    } else if d == 5 {
        '5'
    } else if d == 6 {
        '6'
    } else if d == 7 {
        '7'
    } else if d == 8 {
        '8'
    } else {
        '9'
    }
}

/// The decimal numeral of `n`: no sign, no leading zero, `"0"` for zero.
pub open spec fn decimal_of(n: nat) -> Seq<char>
    decreases n,
{
    if n < 10 {
        seq![digit_char(n)]
    } else {
        decimal_of(n / 10).push(digit_char(n % 10))
    }
}

/// The digit that `c` writes, and zero for any other character.
pub open spec fn digit_value(c: char) -> nat {
    if c == '1' {
        1
    } else if c == '2' {
        2
    } else if c == '3' {
        3
    } else if c == '4' {
        4
    } else if c == '5' {
        5
    } else if c == '6' {
        6
    } else if c == '7' {
        7
    } else if c == '8' {
        8
    } else if c == '9' {
        9
    } else {
        0
    }
}

/// The number that a row of digits writes in decimal.
pub open spec fn numeral_value(digits: Seq<char>) -> nat
    decreases digits.len(),
{
    if digits.len() == 0 {
        0
    } else {
        numeral_value(digits.drop_last()) * 10 + digit_value(digits.last())
    }
}

/// Whether `c` is one of the ten decimal digits.
pub open spec fn is_digit(c: char) -> bool {
    '0' <= c <= '9'
}

/// Whether `text` is a row of decimal digits, one at least, and nothing
/// else: no sign, no blank.
pub open spec fn is_numeral(text: Seq<char>) -> bool {
    text.len() > 0 && forall|i: int| 0 <= i < text.len() ==> is_digit(#[trigger] text[i])
}

/// The number that `text` writes, where it is a numeral of a number that a
/// `u64` holds.
pub open spec fn parsed_of(text: Seq<char>) -> Option<u64> {
    if is_numeral(text) && numeral_value(text) <= u64::MAX {
        Some(numeral_value(text) as u64)
    } else {
        None
    }
}

/// The number of digits in the decimal numeral of `n`.
pub open spec fn digit_count(n: nat) -> nat
    decreases n,
{
    if n < 10 {
        1
    } else {
        digit_count(n / 10) + 1
    }
}

/// A numeral has as many characters as its number has digits, and each of
/// them is a decimal digit.
pub proof fn lemma_decimal_shape(n: nat)
    ensures
        decimal_of(n).len() == digit_count(n),
        forall|i: int|
            0 <= i < decimal_of(n).len() ==> '0' <= #[trigger] decimal_of(n)[i] <= '9',
        n > 0 ==> decimal_of(n)[0] != '0',
    decreases n,
{
    if n >= 10 {
        lemma_decimal_shape(n / 10);
    }
}

/// A numeral writes its number: read as decimal, `decimal_of(n)` is `n`. So
/// two numbers with one numeral are one number.
pub proof fn lemma_decimal_reads_back(n: nat)
    ensures
        numeral_value(decimal_of(n)) == n,
    decreases n,
{
    if n < 10 {
        assert(decimal_of(n).drop_last() =~= Seq::<char>::empty());
        assert(numeral_value(decimal_of(n).drop_last()) == 0);
    } else {
        lemma_decimal_reads_back(n / 10);
        assert(decimal_of(n).drop_last() =~= decimal_of(n / 10));
    }
}

/// The one-character text of the digit `d`.
fn digit_text(d: u64) -> (text: &'static str)
    requires
        d < 10,
    ensures
        text@ == seq![digit_char(d as nat)],
{
    proof {
        reveal_strlit("0");
        reveal_strlit("1");
        reveal_strlit("2");
        reveal_strlit("3");
        reveal_strlit("4");
        reveal_strlit("5");
        reveal_strlit("6");
        reveal_strlit("7");
        reveal_strlit("8");
        reveal_strlit("9");
    }
    if d == 0 {
        "0"
    } else if d == 1 {
        "1"
    } else if d == 2 {
        "2"
    } else if d == 3 {
        "3"
    } else if d == 4 {
        "4"
    } else if d == 5 {
        "5"
    } else if d == 6 {
        "6"
    } else if d == 7 {
        "7"
    } else if d == 8 {
        "8"
    } else {
        "9"
    }
}

/// Writes `n` in decimal.
pub fn decimal(n: u64) -> (text: String)
    ensures
        text@ == decimal_of(n as nat),
    decreases n,
{
    if n < 10 {
        String::from_str(digit_text(n))
    } else {
        let mut text: String = decimal(n / 10);
        text.append(digit_text(n % 10));
        text
    }
}

/// A digit and its byte: the digits are the bytes from 48 to 57, in order.
proof fn lemma_digit_byte(c: char)
    requires
        c as u32 <= 127,
    ensures
        is_digit(c) <==> 48 <= c as u8 <= 57,
        is_digit(c) ==> digit_value(c) == c as u8 - 48,
{
}

/// The number that the first `k` digits of a row write is at most the
/// number that the whole row writes.
proof fn lemma_prefix_value(text: Seq<char>, k: int)
    requires
        0 <= k <= text.len(),
    ensures
        numeral_value(text.take(k)) <= numeral_value(text),
    decreases text.len() - k,
{
    if k < text.len() {
        lemma_prefix_value(text, k + 1);
        assert(text.take(k + 1).drop_last() =~= text.take(k));
    } else {
        assert(text.take(k) =~= text);
    }
}

/// What is written is read back: the numeral of a `u64` is a numeral, and
/// it parses to that number.
pub proof fn lemma_parse_undoes_decimal(n: u64)
    ensures
        is_numeral(decimal_of(n as nat)),
        parsed_of(decimal_of(n as nat)) == Some(n),
{
    lemma_decimal_shape(n as nat);
    lemma_decimal_reads_back(n as nat);
}

/// Reads a decimal numeral. Anything but a row of digits is no number, and
/// neither is a numeral of a number above `u64::MAX`.
pub fn parse_decimal(text: &str) -> (number: Option<u64>)
    ensures
        number == parsed_of(text@),
{
    if !text.is_ascii() {
        return None;
    }
    let count: usize = text.unicode_len();
    if count == 0 {
        return None;
    }
    let mut value: u64 = 0;
    let mut i: usize = 0;
    while i < count
        invariant
            text.is_ascii(),
            count == text@.len(),
            0 <= i <= count,
            forall|j: int| 0 <= j < i ==> is_digit(#[trigger] text@[j]),
            value == numeral_value(text@.take(i as int)),
        decreases count - i,
    {
        let byte: u8 = text.get_ascii(i);
        proof {
            lemma_digit_byte(text@[i as int]);
            assert(text@.take(i + 1).drop_last() =~= text@.take(i as int));
        }
        if byte < 48 || byte > 57 {
            return None;
        }
        let digit: u64 = (byte - 48) as u64;
        if value > (u64::MAX - digit) / 10 {
            proof {
                lemma_prefix_value(text@, i + 1);
            }
            return None;
        }
        value = value * 10 + digit;
        i = i + 1;
    }
    proof {
        assert(text@.take(count as int) =~= text@);
    }
    Some(value)
}

} // verus!
