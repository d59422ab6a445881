//! Building text: decimal numbers and escaped character data.

use vstd::prelude::*;
use vstd::string::StringExecFns;

verus! {

/// `String::push` appends one character to the end of the string.
pub assume_specification[ String::push ](s: &mut String, ch: char)
    ensures
        final(s)@ == old(s)@.push(ch),
;

/// The character that stands for the decimal digit `d`.
pub open spec fn digit_char(d: int) -> char {
    if d == 0 {
        '0'
    } else if d == 1 {
        '1'
    } else if d == 2 {
        '2'
    } else if d == 3 {
        '3'
    } else if d == 4 {
        '4'
    } else if d == 5 {
        '5'
    } else if d == 6 {
        '6'
    } else if d == 7 {
        '7'
    } else if d == 8 {
        '8'
    } else {
        '9'
    }
}

/// `count` zeros in a row.
pub open spec fn zeros(count: nat) -> Seq<char> {
    Seq::new(count, |i: int| '0')
}

/// One less than `width`, or zero.
pub open spec fn narrower(width: nat) -> nat {
    if width > 1 {
        (width - 1) as nat
    } else {
        0
    }
}

/// `n` in decimal, filled with zeros on the left so that it has at least
/// `width` digits.
pub open spec fn padded(n: nat, width: nat) -> Seq<char>
    decreases n,
{
    if n < 10 {
        zeros(narrower(width)).push(digit_char(n as int))
    } else {
        padded(n / 10, narrower(width)).push(digit_char((n % 10) as int))
    }
}

/// `n` in decimal, without leading zeros.
pub open spec fn decimal(n: nat) -> Seq<char> {
    padded(n, 1)
}

/// The character for a digit below ten.
pub fn digit(d: u8) -> (c: char)
    requires
        d < 10,
    ensures
        c == digit_char(d as int),
{
    match d {
        0 => '0',
        1 => '1',
        2 => '2',
        3 => '3',
        4 => '4',
        5 => '5',
        6 => '6',
        7 => '7',
        8 => '8',
        _ => '9',
    }
}

/// Appends `count` zeros to `out`.
pub fn push_zeros(out: &mut String, count: usize)
    ensures
        final(out)@ == old(out)@ + zeros(count as nat),
{
    let mut i: usize = 0;
    while i < count
        invariant
            i <= count,
            out@ == old(out)@ + zeros(i as nat),
        decreases count - i,
    {
        out.push('0');
        i = i + 1;
        assert(out@ =~= old(out)@ + zeros(i as nat));
    }
}

/// Appends `n` in decimal to `out`, with at least `width` digits.
pub fn push_padded(out: &mut String, n: u64, width: usize)
    ensures
        final(out)@ == old(out)@ + padded(n as nat, width as nat),
    decreases n,
{
    let rest: usize = if width > 1 {
        width - 1
    } else {
        0
    };
    if n < 10 {
        push_zeros(out, rest);
    } else {
        push_padded(out, n / 10, rest);
    }
    out.push(digit((n % 10) as u8));
    assert(out@ =~= old(out)@ + padded(n as nat, width as nat));
}

/// Appends `n` in decimal to `out`.
pub fn push_decimal(out: &mut String, n: u64)
    ensures
        final(out)@ == old(out)@ + decimal(n as nat),
{
    push_padded(out, n, 1);
}

/// Appends `text` to `out`.
pub fn push_text(out: &mut String, text: &str)
    ensures
        final(out)@ == old(out)@ + text@,
{
    out.append(text);
}

/// Whether `c` is one of the ten decimal digits.
pub open spec fn is_digit(c: char) -> bool {
    '0' <= c <= '9'
}

/// The number that the decimal digit `c` stands for.
pub open spec fn digit_value(c: char) -> int {
    c as int - '0' as int
}

/// Whether `s` holds decimal digits only.
pub open spec fn all_digits(s: Seq<char>) -> bool {
    forall|i: int| 0 <= i < s.len() ==> is_digit(#[trigger] s[i])
}

/// The number that the decimal digits `s` write.
pub open spec fn digits_value(s: Seq<char>) -> nat
    decreases s.len(),
{
    if s.len() == 0 {
        0
    } else {
        (digits_value(s.drop_last()) * 10 + digit_value(s.last())) as nat
    }
}

/// `s` without a plus sign in front.
pub open spec fn unsigned_part(s: Seq<char>) -> Seq<char> {
    if s.len() > 0 && s[0] == '+' {
        s.skip(1)
    } else {
        s
    }
}

/// The number below 256 that `s` writes: an optional plus sign, then one or
/// more decimal digits and nothing else.
pub open spec fn parsed_u8(s: Seq<char>) -> Option<u8> {
    match read_digits(unsigned_part(s), 255) {
        Some(n) => Some(n as u8),
        None => None,
    }
}

/// The first digits of a number write no more than all of them.
pub proof fn lemma_digits_value_grows(s: Seq<char>, k: int)
    requires
        all_digits(s),
        0 <= k <= s.len(),
    ensures
        digits_value(s.take(k)) <= digits_value(s),
    decreases s.len(),
{
    if k == s.len() {
        assert(s.take(k) =~= s);
    } else {
        assert(s.take(k) =~= s.drop_last().take(k));
        lemma_digits_value_grows(s.drop_last(), k);
        assert(is_digit(s.last()));
    }
}

/// The characters of a text, one by one.
pub fn chars_of(text: &str) -> (chars: Vec<char>)
    ensures
        chars@ == text@,
{
    let mut chars: Vec<char> = Vec::new();
    for c in it: text.chars()
        invariant
            it.seq() == text@,
            chars@ == text@.take(it.index() as int),
    {
        chars.push(c);
        assert(chars@ =~= text@.take(it.index() + 1));
    }
    assert(text@.take(text@.len() as int) =~= text@);
    chars
}

/// The number that `digits` write, if they are one or more decimal digits
/// and write no more than `limit`.
pub open spec fn read_digits(digits: Seq<char>, limit: nat) -> Option<nat> {
    if digits.len() > 0 && all_digits(digits) && digits_value(digits) <= limit {
        Some(digits_value(digits))
    } else {
        None
    }
}

/// Reads the number that the characters from `from` on write.
pub fn parse_digits(chars: &Vec<char>, from: usize, limit: u64) -> (n: Option<u64>)
    requires
        from <= chars@.len(),
    ensures
        n is Some <==> read_digits(chars@.skip(from as int), limit as nat) is Some,
        n matches Some(value) ==> read_digits(chars@.skip(from as int), limit as nat) == Some(
            value as nat,
        ),
{
    let len: usize = chars.len();
    let ghost digits = chars@.skip(from as int);
    if from == len {
        return None;
    }
    let mut value: u64 = 0;
    let mut i: usize = from;
    while i < len
        invariant
            from <= i <= len,
            len == chars@.len(),
            digits == chars@.skip(from as int),
            all_digits(digits.take(i - from)),
            value == digits_value(digits.take(i - from)),
            value <= limit,
        decreases len - i,
    {
        let c: char = chars[i];
        let ghost before = digits.take(i - from);
        let ghost after = digits.take(i - from + 1);
        assert(after.drop_last() =~= before);
        assert(after.last() == c);
        if c < '0' || c > '9' {
            assert(!is_digit(digits[i - from]));
            return None;
        }
        let d: u64 = (c as u32 - '0' as u32) as u64;
        if d > limit || value > (limit - d) / 10 {
            proof {
                assert(digits_value(after) == value * 10 + d);
                assert(value * 10 + d > limit) by (nonlinear_arith)
                    requires
                        d > limit || value > (limit - d) / 10,
                        value >= 0,
                ;
                if all_digits(digits) {
                    lemma_digits_value_grows(digits, i - from + 1);
                }
            }
            return None;
        }
        assert(value * 10 + d <= limit) by (nonlinear_arith)
            requires
                value <= (limit - d) / 10,
                d <= limit,
        ;
        value = value * 10 + d;
        assert(value == digits_value(after));
        i = i + 1;
    }
    assert(digits.take(len - from) =~= digits);
    Some(value)
}

/// Reads a number below 256 as `str::parse::<u8>` does: an optional plus
/// sign, then decimal digits only.
pub fn parse_u8(text: &str) -> (n: Option<u8>)
    ensures
        n == parsed_u8(text@),
{
    let chars = chars_of(text);
    let from: usize = if chars.len() > 0 && chars[0] == '+' {
        1
    } else {
        0
    };
    assert(chars@.skip(from as int) =~= unsigned_part(text@));
    match parse_digits(&chars, from, 255) {
        Some(value) => Some(value as u8),
        None => None,
    }
}

/// An amount of money held in hundredths: a minus sign where `negative`,
/// the whole units in decimal, a point, and the hundredths in two digits.
pub open spec fn money_text(negative: bool, hundredths: nat) -> Seq<char> {
    (if negative {
        seq!['-']
    } else {
        Seq::empty()
    }) + decimal(hundredths / 100) + seq!['.'] + padded(hundredths % 100, 2)
}

/// Writes an amount of money held in hundredths.
pub fn money(negative: bool, hundredths: u64) -> (text: String)
    ensures
        text@ == money_text(negative, hundredths as nat),
{
    let mut text = String::new();
    if negative {
        text.push('-');
    }
    push_decimal(&mut text, hundredths / 100);
    text.push('.');
    push_padded(&mut text, hundredths % 100, 2);
    assert(text@ =~= money_text(negative, hundredths as nat));
    text
}

/// Whether the two texts are the same.
pub fn same_text(a: &str, b: &str) -> (same: bool)
    ensures
        same == (a@ == b@),
{
    let x: String = a.to_owned();
    let y: String = b.to_owned();
    x == y
}

/// A number below a hundred, written with at least two digits, has exactly
/// two.
pub proof fn lemma_two_digits(n: nat)
    requires
        n < 100,
    ensures
        padded(n, 2) == seq![digit_char((n / 10) as int), digit_char((n % 10) as int)],
{
    reveal_with_fuel(padded, 2);
    if n < 10 {
        assert(zeros(1) =~= seq!['0']);
        assert(padded(n, 2) =~= seq!['0', digit_char(n as int)]);
    } else {
        assert(zeros(0) =~= Seq::<char>::empty());
        assert(padded(n / 10, 1) =~= seq![digit_char((n / 10) as int)]);
        assert(padded(n, 2) =~= seq![digit_char((n / 10) as int), digit_char((n % 10) as int)]);
    }
}

/// A number in decimal has at least one digit and starts with a digit.
pub proof fn lemma_decimal_starts_with_digit(n: nat, width: nat)
    ensures
        padded(n, width).len() >= 1,
        is_digit(padded(n, width)[0]),
    decreases n,
{
    if n < 10 {
        let fill = zeros(narrower(width));
        if fill.len() > 0 {
            assert(padded(n, width)[0] == fill[0]);
        }
    } else {
        lemma_decimal_starts_with_digit(n / 10, narrower(width));
    }
}

} // verus!
