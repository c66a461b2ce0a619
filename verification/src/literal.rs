//! The literals that parameterized class tokens and direct attributes carry:
//! hex colors and lengths with a unit.

use vstd::prelude::*;
use crate::style::{AbsoluteLength, LengthUnit};
use crate::text::{prefix_len, prefix_len_is, spells, to_chars};

verus! {

/// Why a literal could not be read.
#[derive(Clone, Copy, Debug, PartialEq, Eq, Hash, Structural)]
pub enum ResolveError {
    /// A color literal that is not six hex digits.
    InvalidColorLiteral,
    /// A length literal without a readable number or with an unknown unit.
    InvalidLengthLiteral,
    /// An element without an attribute that its kind cannot do without.
    MissingRequiredAttribute,
}

/// A color by its three channels.
#[derive(Clone, Copy, Debug, PartialEq, Eq, Hash, Structural)]
pub struct Rgb {
    pub red: u8,
    pub green: u8,
    pub blue: u8,
}

/// The value of a hex digit, or 16 for any other character.
pub open spec fn hex_value(c: char) -> nat {
    if '0' <= c <= '9' {
        (c as u32 - '0' as u32) as nat
    } else if 'a' <= c <= 'f' {
        (c as u32 - 'a' as u32 + 10) as nat
    } else if 'A' <= c <= 'F' {
        (c as u32 - 'A' as u32 + 10) as nat
    } else {
        16
    }
}

/// The color that a hex literal names: after any leading `#`, exactly six hex
/// digits, two for each of red, green and blue.
pub open spec fn color_of(literal: Seq<char>) -> Option<Rgb> {
    let digits = literal.skip(prefix_len(literal, |c: char| c == '#') as int);
    if digits.len() == 6 && forall|i: int| 0 <= i < 6 ==> hex_value(#[trigger] digits[i]) < 16 {
        Some(
            Rgb {
                red: (16 * hex_value(digits[0]) + hex_value(digits[1])) as u8,
                green: (16 * hex_value(digits[2]) + hex_value(digits[3])) as u8,
                blue: (16 * hex_value(digits[4]) + hex_value(digits[5])) as u8,
            },
        )
    } else {
        None
    }
}

fn hex_digit(c: char) -> (value: u8)
    ensures
        value == hex_value(c),
{
    if '0' <= c && c <= '9' {
        (c as u32 - '0' as u32) as u8
    } else if 'a' <= c && c <= 'f' {
        (c as u32 - 'a' as u32 + 10) as u8
    } else if 'A' <= c && c <= 'F' {
        (c as u32 - 'A' as u32 + 10) as u8
    } else {
        16
    }
}

/// Reads a hex color literal.
pub fn color_of_literal(literal: &[char]) -> (color: Result<Rgb, ResolveError>)
    ensures
        color == match color_of(literal@) {
            Some(rgb) => Ok::<Rgb, ResolveError>(rgb),
            None => Err(ResolveError::InvalidColorLiteral),
        },
{
    let mut start: usize = 0;
    while start < literal.len() && literal[start] == '#'
        invariant
            start <= literal@.len(),
            forall|i: int| 0 <= i < start ==> literal@[i] == '#',
        decreases literal@.len() - start,
    {
        start = start + 1;
    }
    proof {
        prefix_len_is(literal@, |c: char| c == '#', start as int);
    }
    let ghost digits = literal@.skip(start as int);
    if literal.len() - start != 6 {
        return Err(ResolveError::InvalidColorLiteral);
    }
    let r1 = hex_digit(literal[start]);
    let r2 = hex_digit(literal[start + 1]);
    let g1 = hex_digit(literal[start + 2]);
    let g2 = hex_digit(literal[start + 3]);
    let b1 = hex_digit(literal[start + 4]);
    let b2 = hex_digit(literal[start + 5]);
    proof {
        assert(digits[0] == literal@[start + 0]);
        assert(digits[1] == literal@[start + 1]);
        assert(digits[2] == literal@[start + 2]);
        assert(digits[3] == literal@[start + 3]);
        assert(digits[4] == literal@[start + 4]);
        assert(digits[5] == literal@[start + 5]);
    }
    if r1 < 16 && r2 < 16 && g1 < 16 && g2 < 16 && b1 < 16 && b2 < 16 {
        Ok(Rgb { red: 16 * r1 + r2, green: 16 * g1 + g2, blue: 16 * b1 + b2 })
    } else {
        Err(ResolveError::InvalidColorLiteral)
    }
}

/// Reads a hex color such as `#112233` into its channels.
pub fn hex_to_rgb(hex: &str) -> (color: Result<Rgb, ResolveError>)
    ensures
        color == match color_of(hex@) {
            Some(rgb) => Ok::<Rgb, ResolveError>(rgb),
            None => Err(ResolveError::InvalidColorLiteral),
        },
{
    let chars = to_chars(hex);
    color_of_literal(chars.as_slice())
}

/// The decimal digits.
pub open spec fn is_digit(c: char) -> bool {
    '0' <= c <= '9'
}

/// The characters of a number: the decimal digits and the point.
pub open spec fn is_numeral_char(c: char) -> bool {
    is_digit(c) || c == '.'
}

/// The number that a text of decimal digits writes.
pub open spec fn digits_value(digits: Seq<char>) -> nat
    decreases digits.len(),
{
    if digits.len() == 0 {
        0
    } else {
        10 * digits_value(digits.drop_last()) + (digits.last() as u32 - '0' as u32) as nat
    }
}

/// The digits before and after the point of a decimal number: digits, then
/// at most one point with digits behind it, and at least one digit in all.
pub open spec fn decimal_parts(number: Seq<char>) -> Option<(Seq<char>, Seq<char>)> {
    let whole = number.take(prefix_len(number, |c: char| is_digit(c)) as int);
    let rest = number.skip(whole.len() as int);
    if rest.len() == 0 {
        if whole.len() > 0 {
            Some((whole, Seq::empty()))
        } else {
            None
        }
    } else {
        let fraction = rest.drop_first();
        if rest[0] == '.' && prefix_len(fraction, |c: char| is_digit(c)) == fraction.len()
            && whole.len() + fraction.len() > 0 {
            Some((whole, fraction))
        } else {
            None
        }
    }
}

/// The number at the head of a text: its longest prefix of digits and points.
pub open spec fn leading_number(literal: Seq<char>) -> Seq<char> {
    literal.take(prefix_len(literal, |c: char| is_numeral_char(c)) as int)
}

/// The unit behind the number at the head of a text: what follows the number,
/// if that is `px` or `rem`.
pub open spec fn unit_behind(literal: Seq<char>) -> Option<LengthUnit> {
    let unit = literal.skip(leading_number(literal).len() as int);
    if unit == "px"@ {
        Some(LengthUnit::Pixels)
    } else if unit == "rem"@ {
        Some(LengthUnit::Rems)
    } else {
        None
    }
}

/// The length that a text such as `12.5px` writes, a number with its unit: a
/// decimal number whose digits fit in 64 bits, and `px` or `rem`.
pub open spec fn measure_of(literal: Seq<char>) -> Option<AbsoluteLength> {
    match (unit_behind(literal), decimal_parts(leading_number(literal))) {
        (Some(unit), Some((whole, fraction))) => if digits_value(whole + fraction) <= u64::MAX {
            Some(
                AbsoluteLength {
                    unit,
                    mantissa: digits_value(whole + fraction) as u64,
                    scale: fraction.len() as usize,
                },
            )
        } else {
            None
        },
        _ => None,
    }
}

/// The length that stands in for a number with its unit that cannot be read:
/// zero of its unit, and zero pixels where the unit is unknown.
pub open spec fn measure_fallback(literal: Seq<char>) -> AbsoluteLength {
    match unit_behind(literal) {
        Some(unit) => AbsoluteLength { unit, mantissa: 0, scale: 0 },
        None => AbsoluteLength::zero_pixels(),
    }
}

/// A length literal from its number on: the literal without what stands
/// before its first digit or point.
pub open spec fn from_number(literal: Seq<char>) -> Seq<char> {
    literal.skip(prefix_len(literal, |c: char| !is_numeral_char(c)) as int)
}

/// The length that a literal such as `12.5px` or `t-4px` writes: its first
/// run of digits and points is the number, what follows the run is the unit.
pub open spec fn length_of(literal: Seq<char>) -> Option<AbsoluteLength> {
    measure_of(from_number(literal))
}

/// The length that stands in for a literal that cannot be read: zero of its
/// unit, and zero pixels where the unit is unknown.
pub open spec fn fallback_length(literal: Seq<char>) -> AbsoluteLength {
    measure_fallback(from_number(literal))
}

fn is_digit_char(c: char) -> (digit: bool)
    ensures
        digit == is_digit(c),
{
    '0' <= c && c <= '9'
}

/// What a scan over digits has read so far: their value while it fits in 64
/// bits.
struct Tally {
    value: u64,
    fits: bool,
}

impl Tally {
    spec fn is_of(self, digits: Seq<char>) -> bool {
        if self.fits {
            self.value == digits_value(digits)
        } else {
            digits_value(digits) > u64::MAX
        }
    }

    fn take(self, next: char, Ghost(digits): Ghost<Seq<char>>) -> (after: Tally)
        requires
            self.is_of(digits),
            is_digit(next),
        ensures
            after.is_of(digits.push(next)),
    {
        proof {
            assert(digits.push(next).drop_last() =~= digits);
        }
        let digit = (next as u32 - '0' as u32) as u64;
        if self.fits && self.value <= (u64::MAX - digit) / 10 {
            Tally { value: 10 * self.value + digit, fits: true }
        } else {
            Tally { value: 0, fits: false }
        }
    }
}

/// Reads the digits of `text` from `from` on into `reading`, up to the first
/// character that is no digit.
fn read_digits(text: &[char], from: usize, reading: Tally, Ghost(before): Ghost<Seq<char>>) -> (end:
    (usize, Tally))
    requires
        from <= text@.len(),
        reading.is_of(before),
    ensures
        from <= end.0 <= text@.len(),
        forall|i: int| from <= i < end.0 ==> is_digit(text@[i]),
        end.0 == text@.len() || !is_digit(text@[end.0 as int]),
        end.1.is_of(before + text@.subrange(from as int, end.0 as int)),
{
    let mut at = from;
    let mut reading = reading;
    proof {
        assert(before + text@.subrange(from as int, at as int) =~= before);
    }
    while at < text.len() && is_digit_char(text[at])
        invariant
            from <= at <= text@.len(),
            forall|i: int| from <= i < at ==> is_digit(text@[i]),
            reading.is_of(before + text@.subrange(from as int, at as int)),
        decreases text@.len() - at,
    {
        reading = reading.take(text[at], Ghost(before + text@.subrange(from as int, at as int)));
        proof {
            assert((before + text@.subrange(from as int, at as int)).push(text@[at as int])
                =~= before + text@.subrange(from as int, at + 1));
        }
        at = at + 1;
    }
    (at, reading)
}

/// Reads a number with its unit, such as `12.5px`; a text that cannot be read
/// comes back as the length that stands in for it.
fn read_measure(literal: &[char]) -> (length: Result<AbsoluteLength, AbsoluteLength>)
    ensures
        length == match measure_of(literal@) {
            Some(read) => Ok::<AbsoluteLength, AbsoluteLength>(read),
            None => Err(measure_fallback(literal@)),
        },
{
    let total = literal.len();
    let nothing = Tally { value: 0, fits: true };
    let (whole_end, read) = read_digits(literal, 0, nothing, Ghost(Seq::empty()));
    let ghost whole = literal@.subrange(0, whole_end as int);
    let pointed = whole_end < total && literal[whole_end] == '.';
    let (mut at, reading) = if pointed {
        read_digits(literal, whole_end + 1, read, Ghost(whole))
    } else {
        (whole_end, read)
    };
    let ghost digits = if pointed {
        whole + literal@.subrange(whole_end + 1, at as int)
    } else {
        whole
    };
    proof {
        assert(Seq::<char>::empty() + whole =~= whole);
    }
    let digits_end = at;
    while at < total && (is_digit_char(literal[at]) || literal[at] == '.')
        invariant
            digits_end <= at <= total == literal@.len(),
            forall|i: int| digits_end <= i < at ==> is_numeral_char(literal@[i]),
        decreases total - at,
    {
        at = at + 1;
    }
    let unit_text = &literal[at..total];
    let unit = if spells(unit_text, "px") {
        Some(LengthUnit::Pixels)
    } else if spells(unit_text, "rem") {
        Some(LengthUnit::Rems)
    } else {
        None
    };
    let scale = if pointed {
        digits_end - whole_end - 1
    } else {
        0
    };
    proof {
        let number = literal@.take(at as int);
        if at > digits_end {
            assert(is_numeral_char(literal@[digits_end as int]));
        }
        assert forall|i: int| 0 <= i < at implies is_numeral_char(literal@[i]) by {
            if i >= digits_end {
            } else if i == whole_end {
            } else {
                assert(is_digit(literal@[i]));
            }
        }
        prefix_len_is(literal@, |c: char| is_numeral_char(c), at as int);
        assert(number == leading_number(literal@));
        assert(unit_text@ == literal@.skip(at as int));
        assert(unit == unit_behind(literal@));
        assert forall|i: int| 0 <= i < whole_end implies is_digit(number[i]) by {
            assert(number[i] == literal@[i]);
        }
        if whole_end < number.len() {
            assert(number[whole_end as int] == literal@[whole_end as int]);
        }
        prefix_len_is(number, |c: char| is_digit(c), whole_end as int);
        assert(number.take(whole_end as int) =~= whole);
        assert(digits_end == whole_end || pointed);
        let rest = number.skip(whole_end as int);
        if rest.len() > 0 {
            assert(rest[0] == literal@[whole_end as int]);
            let fraction = rest.drop_first();
            if pointed {
                let read = digits_end - whole_end - 1;
                assert forall|i: int| 0 <= i < read implies is_digit(fraction[i]) by {
                    assert(fraction[i] == literal@[whole_end + 1 + i]);
                }
                if read < fraction.len() {
                    assert(fraction[read] == literal@[digits_end as int]);
                }
                prefix_len_is(fraction, |c: char| is_digit(c), read);
                if read == fraction.len() {
                    assert(fraction =~= literal@.subrange(whole_end + 1, digits_end as int));
                    assert(digits == whole + fraction);
                }
            }
        } else {
            assert(whole + Seq::<char>::empty() =~= whole);
        }
    }
    let complete = digits_end == at && (whole_end > 0 || scale > 0);
    match unit {
        Some(unit) => {
            if complete && reading.fits {
                Ok(AbsoluteLength { unit, mantissa: reading.value, scale })
            } else {
                Err(AbsoluteLength { unit, mantissa: 0, scale: 0 })
            }
        },
        None => Err(AbsoluteLength { unit: LengthUnit::Pixels, mantissa: 0, scale: 0 }),
    }
}

/// Reads a length literal such as `12.5px` or `t-4px`; a literal that cannot
/// be read comes back as the length that stands in for it.
pub fn length_of_literal(literal: &[char]) -> (length: Result<AbsoluteLength, AbsoluteLength>)
    ensures
        length == match length_of(literal@) {
            Some(read) => Ok::<AbsoluteLength, AbsoluteLength>(read),
            None => Err(fallback_length(literal@)),
        },
{
    let total = literal.len();
    let mut start: usize = 0;
    while start < total && !(is_digit_char(literal[start]) || literal[start] == '.')
        invariant
            start <= total == literal@.len(),
            forall|i: int| 0 <= i < start ==> !is_numeral_char(literal@[i]),
        decreases total - start,
    {
        start = start + 1;
    }
    proof {
        prefix_len_is(literal@, |c: char| !is_numeral_char(c), start as int);
    }
    read_measure(&literal[start..total])
}

/// Reads the length of a class name such as `4px`, `0.5rem` or `t-4px`: the
/// first run of digits and points is the number, what follows the run is the
/// unit. A number that cannot be read gives zero of the unit, an unknown unit
/// zero pixels.
pub fn extract_length_from_class_name(class_name: &str) -> (length: AbsoluteLength)
    ensures
        length == match length_of(class_name@) {
            Some(read) => read,
            None => fallback_length(class_name@),
        },
{
    let chars = to_chars(class_name);
    match length_of_literal(chars.as_slice()) {
        Ok(length) => length,
        Err(length) => length,
    }
}

} // verus!
