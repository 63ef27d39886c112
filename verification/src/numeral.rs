//! Numerals: the text of a number and the number of a text.
//!
//! The text of a number is the shortest decimal numeral that reads back as
//! the same number, written without an exponent. A text is read as the
//! nearest number to the decimal numeral that it spells. `rustc_apfloat`
//! expands a number to decimal digits and reads a numeral; the syntax of
//! numerals, the choice of the digits and their layout are decided here.

use crate::number::{Num, INFINITY_BITS};
use crate::text::string_of;
use rustc_apfloat::ieee::Double;
use rustc_apfloat::Float;
use std::str::FromStr;
use vstd::prelude::*;

verus! {

/// The most digits that the text of a number has.
pub const MAX_DIGITS: usize = 17;

/// The digits to which a number is expanded before its text is chosen.
pub const EXPANSION_DIGITS: usize = 25;

/// The largest exponent that is read from a numeral; a longer one counts as
/// this.
pub const EXPONENT_CAP: u32 = 100000;

/// The scientific numeral of a binary64 number to a count of significant
/// digits.
pub uninterp spec fn ieee_scientific(bits: u64, digits: nat) -> Seq<char>;

/// The bits of the binary64 number nearest to a numeral, if it is one.
pub uninterp spec fn ieee_parsed(text: Seq<char>) -> Option<u64>;

/// `Display` of `rustc_apfloat::ieee::Double` with width 0, which selects
/// scientific notation, and the given precision: the text is a function of
/// the pattern and of the precision alone.
#[verifier::external_body]
fn apfloat_scientific(bits: u64, digits: usize) -> (r: String)
    requires
        1 <= digits <= EXPANSION_DIGITS,
    ensures
        r@ == ieee_scientific(bits, digits as nat),
{
    format!("{:w$.p$}", Double::from_bits(bits as u128), w = 0, p = digits)
}

/// `FromStr::from_str` of `rustc_apfloat::ieee::Double`, on a decimal
/// numeral: whether the text is read as a number, and the pattern of that
/// number, are functions of the text alone.
#[verifier::external_body]
fn apfloat_parse(text: &str) -> (r: Option<u64>)
    requires
        numeral_syntax(text@),
    ensures
        r == ieee_parsed(text@),
{
    match Double::from_str(text) {
        Ok(x) => Some(x.to_bits() as u64),
        Err(_) => None,
    }
}

/// Whether a character is a decimal digit.
pub open spec fn is_digit(c: char) -> bool {
    0x30 <= c as u32 <= 0x39
}

/// The place of the first `c` at or after `from`, or the length if there is
/// none.
pub open spec fn first_of(s: Seq<char>, c: char, from: int) -> int
    decreases s.len() - from,
{
    if from >= s.len() {
        s.len() as int
    } else if s[from] == c {
        from
    } else {
        first_of(s, c, from + 1)
    }
}

/// The decimal digits among the characters, in order.
pub open spec fn only_digits(s: Seq<char>) -> Seq<char>
    decreases s.len(),
{
    if s.len() == 0 {
        Seq::empty()
    } else if is_digit(s.last()) {
        only_digits(s.drop_last()).push(s.last())
    } else {
        only_digits(s.drop_last())
    }
}

/// The digits without their trailing zeros, but for one digit at least.
pub open spec fn trimmed(digits: Seq<char>) -> Seq<char>
    decreases digits.len(),
{
    if digits.len() > 1 && digits.last() == '0' {
        trimmed(digits.drop_last())
    } else {
        digits
    }
}

/// The number that digits spell, capped.
pub open spec fn capped_number(digits: Seq<char>) -> nat
    decreases digits.len(),
{
    if digits.len() == 0 {
        0
    } else {
        let value = capped_number(digits.drop_last()) * 10 + (digits.last() as u32 - 0x30);
        if value > EXPONENT_CAP {
            EXPONENT_CAP as nat
        } else {
            value as nat
        }
    }
}

/// The digits of a scientific numeral (`-d.dddE-x`, sign and fraction
/// optional), without the zeros at their end.
pub open spec fn scientific_digits(numeral: Seq<char>) -> Seq<char> {
    trimmed(only_digits(numeral.take(first_of(numeral, 'E', 0))))
}

/// The exponent of a scientific numeral.
pub open spec fn scientific_exponent(numeral: Seq<char>) -> int {
    let mark = first_of(numeral, 'E', 0);
    let size = capped_number(only_digits(numeral.skip(mark))) as int;
    if first_of(numeral, '-', mark) < numeral.len() {
        -size
    } else {
        size
    }
}

/// The numeral of an integer of digits times a power of ten.
pub open spec fn integer_numeral(negative: bool, digits: Seq<char>, power: int) -> Seq<char> {
    let sign = if negative {
        seq!['-']
    } else {
        Seq::<char>::empty()
    };
    sign + digits + seq!['E'] + crate::text::signed_decimal(power)
}

/// Whether an integer of digits times a power of ten reads as a pattern.
pub open spec fn reads_as(bits: u64, negative: bool, digits: Seq<char>, power: int) -> bool {
    let numeral = integer_numeral(negative, digits, power);
    numeral_syntax(numeral) && ieee_parsed(numeral) == Some(bits)
}

/// The digit after a digit; `0` after `9`.
pub open spec fn next_digit(c: char) -> char {
    if c == '0' {
        '1'
    } else if c == '1' {
        '2'
    } else if c == '2' {
        '3'
    } else if c == '3' {
        '4'
    } else if c == '4' {
        '5'
    } else if c == '5' {
        '6'
    } else if c == '6' {
        '7'
    } else if c == '7' {
        '8'
    } else if c == '8' {
        '9'
    } else {
        '0'
    }
}

/// The digits of an integer one greater than that of the given digits; it
/// has one digit more where all the digits are nines.
pub open spec fn bumped(digits: Seq<char>) -> Seq<char>
    decreases digits.len(),
{
    if digits.len() == 0 {
        seq!['1']
    } else if digits.last() == '9' {
        bumped(digits.drop_last()).push('0')
    } else {
        digits.drop_last().push(next_digit(digits.last()))
    }
}

/// The digits that stand for a number at a count of digits, if some do: the
/// first digits of its expansion or those of the integer one greater,
/// whichever reads back as the number, and the nearer where both do. An
/// expansion that is no longer than the count stands for the number itself.
pub open spec fn digits_at(
    bits: u64,
    negative: bool,
    expansion: Seq<char>,
    exponent: int,
    count: nat,
) -> Option<Seq<char>> {
    if count >= expansion.len() {
        Some(expansion)
    } else {
        let below = expansion.take(count as int);
        let above = bumped(below);
        let power = exponent - (count - 1);
        let below_reads = reads_as(bits, negative, below, power);
        let above_reads = reads_as(bits, negative, above, power);
        if below_reads && above_reads {
            if expansion[count as int] as u32 >= 0x35 {
                Some(above)
            } else {
                Some(below)
            }
        } else if below_reads {
            Some(below)
        } else if above_reads {
            Some(above)
        } else {
            None
        }
    }
}

/// The power of ten that goes with the digits at a count of digits.
pub open spec fn power_at(expansion: Seq<char>, exponent: int, count: nat) -> int {
    if count >= expansion.len() {
        exponent - (expansion.len() - 1)
    } else {
        exponent - (count - 1)
    }
}

/// The fewest digits, from `count` on, that stand for a number, with their
/// power of ten; the first digits of the expansion where none do.
pub open spec fn shortest_from(
    bits: u64,
    negative: bool,
    expansion: Seq<char>,
    exponent: int,
    count: nat,
) -> (Seq<char>, int)
    decreases MAX_DIGITS - count,
{
    match digits_at(bits, negative, expansion, exponent, count) {
        Some(digits) => (digits, power_at(expansion, exponent, count)),
        None => if count >= MAX_DIGITS {
            (expansion.take(count as int), power_at(expansion, exponent, count))
        } else {
            shortest_from(bits, negative, expansion, exponent, count + 1)
        },
    }
}

/// A run of zeros.
pub open spec fn zeros(count: nat) -> Seq<char> {
    Seq::new(count, |i: int| '0')
}

/// The digits `d1 d2 .. dn` of `d1.d2..dn × 10^exponent`, laid out without an
/// exponent.
pub open spec fn laid_out(digits: Seq<char>, exponent: int) -> Seq<char> {
    let point = exponent + 1;
    if point <= 0 {
        seq!['0', '.'] + zeros((-point) as nat) + digits
    } else if point < digits.len() {
        digits.take(point).push('.') + digits.skip(point)
    } else {
        digits + zeros((point - digits.len()) as nat)
    }
}

/// An integer of digits times a power of ten, written without an exponent
/// and without zeros that say nothing.
pub open spec fn plain_decimal(negative: bool, digits: Seq<char>, power: int) -> Seq<char> {
    let kept = trimmed(digits);
    let exponent = power + digits.len() - 1;
    if negative {
        seq!['-'] + laid_out(kept, exponent)
    } else {
        laid_out(kept, exponent)
    }
}

/// The text of a number: `NaN`, `inf` and `0` with their sign where they have
/// one, else the fewest digits that read back as the number, written without
/// an exponent.
pub open spec fn number_text(x: Num) -> Seq<char> {
    if x.spec_is_nan() {
        "NaN"@
    } else if x.magnitude() == INFINITY_BITS {
        if x.spec_is_negative() {
            "-inf"@
        } else {
            "inf"@
        }
    } else if x.spec_is_zero() {
        if x.spec_is_negative() {
            "-0"@
        } else {
            "0"@
        }
    } else {
        let numeral = ieee_scientific(x.bits, EXPANSION_DIGITS as nat);
        let chosen = shortest_from(
            x.bits,
            x.spec_is_negative(),
            scientific_digits(numeral),
            scientific_exponent(numeral),
            1,
        );
        plain_decimal(x.spec_is_negative(), chosen.0, chosen.1)
    }
}

/// Whether a character is a decimal digit.
pub fn digit_char(c: char) -> (r: bool)
    ensures
        r == is_digit(c),
{
    let code: u32 = c as u32;
    0x30 <= code && code <= 0x39
}

/// The place of the first `c` at or after `from`, or the length if there is
/// none.
pub fn find_char(s: &Vec<char>, c: char, from: usize) -> (r: usize)
    requires
        from <= s@.len(),
    ensures
        r == first_of(s@, c, from as int),
        from <= r <= s@.len(),
{
    let mut i: usize = from;
    while i < s.len()
        invariant
            from <= i <= s@.len(),
            first_of(s@, c, from as int) == first_of(s@, c, i as int),
        decreases s.len() - i,
    {
        if s[i] == c {
            return i;
        }
        i += 1;
    }
    i
}

/// The decimal digits among the characters from `from` up to `to`.
pub fn digits_between(s: &Vec<char>, from: usize, to: usize) -> (r: Vec<char>)
    requires
        from <= to <= s@.len(),
    ensures
        r@ == only_digits(s@.subrange(from as int, to as int)),
{
    let mut out: Vec<char> = Vec::new();
    let mut i: usize = from;
    assert(s@.subrange(from as int, from as int) =~= Seq::<char>::empty());
    while i < to
        invariant
            from <= i <= to,
            to <= s@.len(),
            out@ == only_digits(s@.subrange(from as int, i as int)),
        decreases to - i,
    {
        assert(s@.subrange(from as int, i + 1).drop_last() =~= s@.subrange(from as int, i as int));
        let c: char = s[i];
        if digit_char(c) {
            out.push(c);
        }
        i += 1;
    }
    out
}

/// The number that digits spell, capped.
pub fn number_of(digits: &Vec<char>) -> (r: u32)
    requires
        forall|i: int| 0 <= i < digits@.len() ==> is_digit(digits@[i]),
    ensures
        r == capped_number(digits@),
        r <= EXPONENT_CAP,
{
    let mut value: u32 = 0;
    let mut i: usize = 0;
    assert(digits@.take(0) =~= Seq::<char>::empty());
    while i < digits.len()
        invariant
            i <= digits@.len(),
            forall|i: int| 0 <= i < digits@.len() ==> is_digit(digits@[i]),
            value == capped_number(digits@.take(i as int)),
            value <= EXPONENT_CAP,
        decreases digits.len() - i,
    {
        assert(digits@.take(i + 1).drop_last() =~= digits@.take(i as int));
        let c: char = digits[i];
        assert(is_digit(digits@[i as int]));
        let code: u32 = c as u32;
        value = value * 10 + (code - 0x30);
        if value > EXPONENT_CAP {
            value = EXPONENT_CAP;
        }
        i += 1;
    }
    assert(digits@.take(digits@.len() as int) =~= digits@);
    value
}

/// Only digits come out of `only_digits`.
pub proof fn lemma_only_digits(s: Seq<char>)
    ensures
        forall|i: int| 0 <= i < only_digits(s).len() ==> is_digit(#[trigger] only_digits(s)[i]),
    decreases s.len(),
{
    if s.len() > 0 {
        lemma_only_digits(s.drop_last());
        let rest = only_digits(s.drop_last());
        assert forall|i: int| 0 <= i < only_digits(s).len() implies is_digit(
            #[trigger] only_digits(s)[i],
        ) by {
            if i < rest.len() {
                assert(is_digit(rest[i]));
            }
        }
    }
}

/// Takes the zeros at the end of digits away, but for one digit at least.
pub fn trim(digits: &mut Vec<char>)
    ensures
        final(digits)@ == trimmed(old(digits)@),
{
    while digits.len() > 1 && digits[digits.len() - 1] == '0'
        invariant
            trimmed(old(digits)@) == trimmed(digits@),
        decreases digits.len(),
    {
        digits.pop();
    }
}

/// The digits and the exponent of a scientific numeral.
pub fn scientific_parts(numeral: &str) -> (r: (Vec<char>, i64))
    ensures
        r.0@ == scientific_digits(numeral@),
        r.1 == scientific_exponent(numeral@),
        -(EXPONENT_CAP as int) <= r.1 <= EXPONENT_CAP as int,
{
    let s: Vec<char> = crate::text::chars_of(numeral);
    let mark: usize = find_char(&s, 'E', 0);
    let mut digits: Vec<char> = digits_between(&s, 0, mark);
    assert(s@.subrange(0, mark as int) =~= s@.take(mark as int));
    trim(&mut digits);
    let tail_digits: Vec<char> = digits_between(&s, mark, s.len());
    assert(s@.subrange(mark as int, s@.len() as int) =~= s@.skip(mark as int));
    proof {
        lemma_only_digits(s@.skip(mark as int));
    }
    let size: u32 = number_of(&tail_digits);
    let minus: bool = find_char(&s, '-', mark) < s.len();
    let exponent: i64 = if minus {
        -(size as i64)
    } else {
        size as i64
    };
    (digits, exponent)
}

/// The digit after a digit; `0` after `9`.
pub fn digit_after(c: char) -> (r: char)
    ensures
        r == next_digit(c),
{
    if c == '0' {
        '1'
    } else if c == '1' {
        '2'
    } else if c == '2' {
        '3'
    } else if c == '3' {
        '4'
    } else if c == '4' {
        '5'
    } else if c == '5' {
        '6'
    } else if c == '6' {
        '7'
    } else if c == '7' {
        '8'
    } else if c == '8' {
        '9'
    } else {
        '0'
    }
}

/// The digits of the integer one greater than that of the given digits.
pub fn bump(digits: &Vec<char>) -> (r: Vec<char>)
    ensures
        r@ == bumped(digits@),
    decreases digits@.len(),
{
    let n: usize = digits.len();
    if n == 0 {
        let mut one: Vec<char> = Vec::new();
        one.push('1');
        assert(one@ =~= seq!['1']);
        return one;
    }
    let last: char = digits[n - 1];
    let front: Vec<char> = front_of(digits, n - 1);
    assert(front@ =~= digits@.drop_last());
    if last == '9' {
        let mut out: Vec<char> = bump(&front);
        out.push('0');
        out
    } else {
        let mut out: Vec<char> = front;
        out.push(digit_after(last));
        out
    }
}

/// The first `count` characters.
pub fn front_of(s: &Vec<char>, count: usize) -> (r: Vec<char>)
    requires
        count <= s@.len(),
    ensures
        r@ == s@.take(count as int),
{
    let mut out: Vec<char> = Vec::new();
    append_chars(&mut out, s, 0, count);
    assert(out@ =~= s@.take(count as int));
    out
}

/// Whether an integer of digits times a power of ten reads as a pattern.
pub fn reads_back(bits: u64, negative: bool, digits: &Vec<char>, power: i64) -> (r: bool)
    ensures
        r == reads_as(bits, negative, digits@, power as int),
{
    let mut numeral: Vec<char> = Vec::new();
    if negative {
        numeral.push('-');
    }
    append_chars(&mut numeral, digits, 0, digits.len());
    assert(digits@.subrange(0, digits@.len() as int) =~= digits@);
    numeral.push('E');
    crate::text::push_signed_decimal(&mut numeral, power);
    assert(numeral@ =~= integer_numeral(negative, digits@, power as int));
    let text: String = string_of(&numeral);
    if is_numeral(text.as_str()) {
        match apfloat_parse(text.as_str()) {
            Some(b) => b == bits,
            None => false,
        }
    } else {
        false
    }
}

/// The digits that stand for a number at a count of digits, if some do.
pub fn choose_digits(
    bits: u64,
    negative: bool,
    expansion: &Vec<char>,
    exponent: i64,
    count: usize,
) -> (r: Option<Vec<char>>)
    requires
        1 <= count <= MAX_DIGITS,
        -(EXPONENT_CAP as int) <= exponent <= EXPONENT_CAP as int,
    ensures
        match r {
            Some(digits) => digits_at(bits, negative, expansion@, exponent as int, count as nat)
                == Some(digits@),
            None => digits_at(bits, negative, expansion@, exponent as int, count as nat) is None,
        },
{
    if count >= expansion.len() {
        let whole: Vec<char> = front_of(expansion, expansion.len());
        assert(whole@ =~= expansion@);
        return Some(whole);
    }
    let below: Vec<char> = front_of(expansion, count);
    let above: Vec<char> = bump(&below);
    let power: i64 = exponent - (count as i64 - 1);
    let below_reads: bool = reads_back(bits, negative, &below, power);
    let above_reads: bool = reads_back(bits, negative, &above, power);
    if below_reads && above_reads {
        let next: char = expansion[count];
        let code: u32 = next as u32;
        if code >= 0x35 {
            Some(above)
        } else {
            Some(below)
        }
    } else if below_reads {
        Some(below)
    } else if above_reads {
        Some(above)
    } else {
        None
    }
}

/// The power of ten that goes with the digits at a count of digits.
pub fn power_of(expansion: &Vec<char>, exponent: i64, count: usize) -> (r: i128)
    requires
        1 <= count <= MAX_DIGITS,
        -(EXPONENT_CAP as int) <= exponent <= EXPONENT_CAP as int,
    ensures
        r == power_at(expansion@, exponent as int, count as nat),
        -(EXPONENT_CAP as int) - usize::MAX <= r <= EXPONENT_CAP as int + 1,
{
    if count >= expansion.len() {
        exponent as i128 - (expansion.len() as i128 - 1)
    } else {
        exponent as i128 - (count as i128 - 1)
    }
}

/// The fewest digits that stand for a number, with their power of ten.
pub fn shortest(bits: u64, negative: bool, expansion: &Vec<char>, exponent: i64) -> (r: (
    Vec<char>,
    i128,
))
    requires
        -(EXPONENT_CAP as int) <= exponent <= EXPONENT_CAP as int,
    ensures
        (r.0@, r.1 as int) == shortest_from(bits, negative, expansion@, exponent as int, 1),
        -(EXPONENT_CAP as int) - usize::MAX <= r.1 <= EXPONENT_CAP as int + 1,
{
    let mut count: usize = 1;
    loop
        invariant
            1 <= count <= MAX_DIGITS,
            -(EXPONENT_CAP as int) <= exponent <= EXPONENT_CAP as int,
            shortest_from(bits, negative, expansion@, exponent as int, 1) == shortest_from(
                bits,
                negative,
                expansion@,
                exponent as int,
                count as nat,
            ),
        decreases MAX_DIGITS - count,
    {
        match choose_digits(bits, negative, expansion, exponent, count) {
            Some(digits) => {
                return (digits, power_of(expansion, exponent, count));
            },
            None => {
                if count >= MAX_DIGITS {
                    // No count of digits reads back: the expansion is longer.
                    let digits: Vec<char> = front_of(expansion, count);
                    return (digits, power_of(expansion, exponent, count));
                }
            },
        }
        count += 1;
    }
}

/// Appends the characters from `from` up to `to`.
pub fn append_chars(out: &mut Vec<char>, s: &Vec<char>, from: usize, to: usize)
    requires
        from <= to <= s@.len(),
    ensures
        final(out)@ == old(out)@ + s@.subrange(from as int, to as int),
{
    let mut i: usize = from;
    assert(out@ =~= old(out)@ + s@.subrange(from as int, from as int));
    while i < to
        invariant
            from <= i <= to,
            to <= s@.len(),
            out@ == old(out)@ + s@.subrange(from as int, i as int),
        decreases to - i,
    {
        out.push(s[i]);
        assert(out@ =~= old(out)@ + s@.subrange(from as int, i + 1));
        i += 1;
    }
}

/// Lays digits out without an exponent.
pub fn lay_out(out: &mut Vec<char>, digits: &Vec<char>, exponent: i128)
    requires
        -0x100_0000_0000_0000_0000 <= exponent <= 0x100_0000_0000_0000_0000,
    ensures
        final(out)@ == old(out)@ + laid_out(digits@, exponent as int),
{
    let n: usize = digits.len();
    let point: i128 = exponent + 1;
    if point <= 0 {
        out.push('0');
        out.push('.');
        let mut k: i128 = 0;
        while k < -point
            invariant
                0 <= k <= -point,
                -0x100_0000_0000_0000_0000 <= point <= 0,
                out@ == old(out)@ + seq!['0', '.'] + zeros(k as nat),
            decreases -point - k,
        {
            out.push('0');
            assert(out@ =~= old(out)@ + seq!['0', '.'] + zeros((k + 1) as nat));
            k += 1;
        }
        append_chars(out, digits, 0, n);
        assert(digits@.subrange(0, n as int) =~= digits@);
        assert(out@ =~= old(out)@ + laid_out(digits@, exponent as int));
    } else if point < n as i128 {
        let at: usize = point as usize;
        append_chars(out, digits, 0, at);
        out.push('.');
        append_chars(out, digits, at, n);
        assert(digits@.subrange(0, at as int) =~= digits@.take(at as int));
        assert(digits@.subrange(at as int, n as int) =~= digits@.skip(at as int));
        assert(out@ =~= old(out)@ + laid_out(digits@, exponent as int));
    } else {
        append_chars(out, digits, 0, n);
        assert(digits@.subrange(0, n as int) =~= digits@);
        let mut k: i128 = n as i128;
        while k < point
            invariant
                n <= k <= point,
                out@ == old(out)@ + digits@ + zeros((k - n) as nat),
            decreases point - k,
        {
            out.push('0');
            assert(out@ =~= old(out)@ + digits@ + zeros((k + 1 - n) as nat));
            k += 1;
        }
        assert(out@ =~= old(out)@ + laid_out(digits@, exponent as int));
    }
}

/// The text of a number.
pub fn render_number(x: Num) -> (r: String)
    ensures
        r@ == number_text(x),
{
    if x.is_nan() {
        return "NaN".to_owned();
    }
    let negative: bool = x.is_negative();
    if x.abs().to_bits() == INFINITY_BITS {
        return if negative {
            "-inf".to_owned()
        } else {
            "inf".to_owned()
        };
    }
    if x.is_zero() {
        return if negative {
            "-0".to_owned()
        } else {
            "0".to_owned()
        };
    }
    let numeral: String = apfloat_scientific(x.to_bits(), EXPANSION_DIGITS);
    let (expansion, exponent) = scientific_parts(numeral.as_str());
    let (digits, power) = shortest(x.to_bits(), negative, &expansion, exponent);
    let mut kept: Vec<char> = front_of(&digits, digits.len());
    assert(kept@ =~= digits@);
    trim(&mut kept);
    let mut out: Vec<char> = Vec::new();
    if negative {
        out.push('-');
    }
    let ghost sign: Seq<char> = out@;
    lay_out(&mut out, &kept, power + digits.len() as i128 - 1);
    assert(out@ =~= plain_decimal(negative, digits@, power as int)) by {
        assert(sign =~= if negative {
            seq!['-']
        } else {
            Seq::<char>::empty()
        });
    }
    string_of(&out)
}

/// The pattern of the quiet NaN that a numeral `nan` reads as.
pub const NAN_BITS: u64 = 0x7FF8_0000_0000_0000;

/// The first place at or after `from` that holds no decimal digit.
pub open spec fn run_end(s: Seq<char>, from: int) -> int
    decreases s.len() - from,
{
    if from >= s.len() {
        s.len() as int
    } else if is_digit(s[from]) {
        run_end(s, from + 1)
    } else {
        from
    }
}

/// A character without the difference between upper and lower case, for the
/// ASCII letters.
pub open spec fn lower(c: char) -> char {
    if 0x41 <= c as u32 <= 0x5A {
        ((c as u32 + 0x20) as u8) as char
    } else {
        c
    }
}

/// Whether a text is a word but for the case of its letters.
pub open spec fn spells(s: Seq<char>, word: Seq<char>) -> bool {
    s.len() == word.len() && forall|i: int| 0 <= i < s.len() ==> lower(#[trigger] s[i]) == word[i]
}

/// Whether a text is an unsigned decimal numeral: digits with an optional
/// point among them or at either end, at least one digit, and an optional
/// exponent of `e`, an optional sign and at least one digit.
pub open spec fn number_syntax(s: Seq<char>) -> bool {
    let whole = run_end(s, 0);
    let fraction_end = if whole < s.len() && s[whole] == '.' {
        run_end(s, whole + 1)
    } else {
        whole
    };
    let digits = if fraction_end > whole {
        fraction_end - 1
    } else {
        whole
    };
    let exponent = if fraction_end + 1 < s.len() && (s[fraction_end + 1] == '+' || s[fraction_end
        + 1] == '-') {
        fraction_end + 2
    } else {
        fraction_end + 1
    };
    &&& digits >= 1
    &&& fraction_end == s.len() || {
        &&& s[fraction_end] == 'e' || s[fraction_end] == 'E'
        &&& run_end(s, exponent) > exponent
        &&& run_end(s, exponent) == s.len()
    }
}

/// Whether a text is a decimal numeral with an optional sign before it.
pub open spec fn numeral_syntax(text: Seq<char>) -> bool {
    if text.len() > 0 && (text[0] == '+' || text[0] == '-') {
        number_syntax(text.skip(1))
    } else {
        number_syntax(text)
    }
}

/// The number that a text spells: an optional sign, then `inf`, `infinity`
/// or `nan` in any case, or a decimal numeral, which reads as the nearest
/// number. Any other text spells none.
pub open spec fn parsed_number(text: Seq<char>) -> Option<Num> {
    let signed = text.len() > 0 && (text[0] == '+' || text[0] == '-');
    let negative = text.len() > 0 && text[0] == '-';
    let body = if signed {
        text.skip(1)
    } else {
        text
    };
    if spells(body, "inf"@) || spells(body, "infinity"@) {
        Some(
            if negative {
                (Num { bits: INFINITY_BITS }).spec_neg()
            } else {
                Num { bits: INFINITY_BITS }
            },
        )
    } else if spells(body, "nan"@) {
        Some(
            if negative {
                (Num { bits: NAN_BITS }).spec_neg()
            } else {
                Num { bits: NAN_BITS }
            },
        )
    } else if numeral_syntax(text) {
        match ieee_parsed(text) {
            Some(bits) => Some(Num { bits }),
            None => None,
        }
    } else {
        None
    }
}

/// The first place at or after `from` that holds no decimal digit.
pub fn skip_digits(s: &Vec<char>, from: usize) -> (r: usize)
    requires
        from <= s@.len(),
    ensures
        r == run_end(s@, from as int),
        from <= r <= s@.len(),
{
    let mut i: usize = from;
    while i < s.len() && digit_char(s[i])
        invariant
            from <= i <= s@.len(),
            run_end(s@, from as int) == run_end(s@, i as int),
        decreases s.len() - i,
    {
        i += 1;
    }
    i
}

/// A character without the difference between upper and lower case, for the
/// ASCII letters.
pub fn to_lower(c: char) -> (r: char)
    ensures
        r == lower(c),
{
    let code: u32 = c as u32;
    if 0x41 <= code && code <= 0x5A {
        ((code + 0x20) as u8) as char
    } else {
        c
    }
}

/// Whether the characters from `from` on are a word but for the case of
/// their letters.
pub fn spells_from(s: &Vec<char>, from: usize, word: &str) -> (r: bool)
    requires
        from <= s@.len(),
    ensures
        r == spells(s@.skip(from as int), word@),
{
    let w: Vec<char> = crate::text::chars_of(word);
    if s.len() - from != w.len() {
        return false;
    }
    let ghost body = s@.skip(from as int);
    let mut i: usize = 0;
    while i < w.len()
        invariant
            from <= s@.len(),
            body == s@.skip(from as int),
            w@ == word@,
            body.len() == w@.len(),
            s@.len() - from == w@.len(),
            s@.len() <= usize::MAX,
            i <= w@.len(),
            forall|j: int| 0 <= j < i ==> lower(#[trigger] body[j]) == w@[j],
        decreases w.len() - i,
    {
        if to_lower(s[from + i]) != w[i] {
            assert(lower(body[i as int]) != word@[i as int]);
            return false;
        }
        i += 1;
    }
    true
}

/// Whether the characters from `from` on are an unsigned decimal numeral.
pub fn number_syntax_from(s: &Vec<char>, from: usize) -> (r: bool)
    requires
        from <= s@.len(),
    ensures
        r == number_syntax(s@.skip(from as int)),
{
    let body: Vec<char> = tail_of(s, from);
    let n: usize = body.len();
    let whole: usize = skip_digits(&body, 0);
    let fraction_end: usize = if whole < n && body[whole] == '.' {
        skip_digits(&body, whole + 1)
    } else {
        whole
    };
    let digits: usize = if fraction_end > whole {
        fraction_end - 1
    } else {
        whole
    };
    if digits < 1 {
        return false;
    }
    if fraction_end == n {
        return true;
    }
    if body[fraction_end] != 'e' && body[fraction_end] != 'E' {
        return false;
    }
    let exponent: usize = if fraction_end + 1 < n && (body[fraction_end + 1] == '+' || body[fraction_end
        + 1] == '-') {
        fraction_end + 2
    } else {
        fraction_end + 1
    };
    if exponent > n {
        return false;
    }
    let end: usize = skip_digits(&body, exponent);
    end > exponent && end == n
}

/// The characters from `from` on.
pub fn tail_of(s: &Vec<char>, from: usize) -> (r: Vec<char>)
    requires
        from <= s@.len(),
    ensures
        r@ == s@.skip(from as int),
{
    let mut out: Vec<char> = Vec::new();
    append_chars(&mut out, s, from, s.len());
    assert(out@ =~= s@.skip(from as int));
    out
}

/// Whether a text is a decimal numeral with an optional sign before it.
pub fn is_numeral(text: &str) -> (r: bool)
    ensures
        r == numeral_syntax(text@),
{
    let s: Vec<char> = crate::text::chars_of(text);
    let signed: bool = s.len() > 0 && (s[0] == '+' || s[0] == '-');
    assert(s@.skip(0) =~= s@);
    if signed {
        number_syntax_from(&s, 1)
    } else {
        number_syntax_from(&s, 0)
    }
}

/// Reads a number from a text.
pub fn parse_number(text: &str) -> (r: Option<Num>)
    ensures
        r == parsed_number(text@),
{
    let s: Vec<char> = crate::text::chars_of(text);
    let signed: bool = s.len() > 0 && (s[0] == '+' || s[0] == '-');
    let negative: bool = s.len() > 0 && s[0] == '-';
    let from: usize = if signed {
        1
    } else {
        0
    };
    assert(s@.skip(0) =~= s@);
    if spells_from(&s, from, "inf") || spells_from(&s, from, "infinity") {
        let x: Num = Num::from_bits(INFINITY_BITS);
        return Some(
            if negative {
                x.neg()
            } else {
                x
            },
        );
    }
    if spells_from(&s, from, "nan") {
        let x: Num = Num::from_bits(NAN_BITS);
        return Some(
            if negative {
                x.neg()
            } else {
                x
            },
        );
    }
    if is_numeral(text) {
        match apfloat_parse(text) {
            Some(bits) => Some(Num::from_bits(bits)),
            None => None,
        }
    } else {
        None
    }
}

} // verus!
