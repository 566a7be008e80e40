//! Reading of a raw temperature: decimal text that holds a whole number of
//! millidegrees Celsius, as a thermal sensor reports it.
//!
//! The library keeps temperatures as whole millidegrees. Text that is not a
//! whole number degrades to [`UNREADABLE_MILLIDEGREES`] instead of failing.

use vstd::prelude::*;

verus! {

/// The temperature reported when none could be read or understood.
pub const UNREADABLE_MILLIDEGREES: i64 = 0;

/// ASCII white space: tab, line feed, vertical tab, form feed, carriage
/// return and space.
pub open spec fn is_space(b: u8) -> bool {
    b == 32 || 9 <= b <= 13
}

/// An ASCII decimal digit.
pub open spec fn is_digit(b: u8) -> bool {
    48 <= b <= 57
}

/// `s` without the white space it starts with.
pub open spec fn trim_start(s: Seq<u8>) -> Seq<u8>
    decreases s.len(),
{
    if s.len() > 0 && is_space(s[0]) {
        trim_start(s.skip(1))
    } else {
        s
    }
}

/// `s` without the white space it ends with.
pub open spec fn trim_end(s: Seq<u8>) -> Seq<u8>
    decreases s.len(),
{
    if s.len() > 0 && is_space(s.last()) {
        trim_end(s.drop_last())
    } else {
        s
    }
}

/// `s` without surrounding white space.
pub open spec fn trimmed(s: Seq<u8>) -> Seq<u8> {
    trim_end(trim_start(s))
}

pub open spec fn all_digits(s: Seq<u8>) -> bool {
    forall|i: int| 0 <= i < s.len() ==> is_digit(#[trigger] s[i])
}

/// The number that a run of decimal digits denotes.
pub open spec fn digits_value(s: Seq<u8>) -> nat
    decreases s.len(),
{
    if s.len() == 0 {
        0
    } else {
        digits_value(s.drop_last()) * 10 + (s.last() - 48) as nat
    }
}

/// Whether `s` starts with a plus or a minus sign.
pub open spec fn has_sign(s: Seq<u8>) -> bool {
    s.len() > 0 && (s[0] == 43 || s[0] == 45)
}

/// `s` without its sign, if it has one.
pub open spec fn unsigned_part(s: Seq<u8>) -> Seq<u8> {
    if has_sign(s) {
        s.skip(1)
    } else {
        s
    }
}

/// Whole-number text: an optional sign, then one or more decimal digits.
pub open spec fn is_integer_text(s: Seq<u8>) -> bool {
    unsigned_part(s).len() > 0 && all_digits(unsigned_part(s))
}

/// The number that whole-number text denotes.
pub open spec fn signed_value(s: Seq<u8>) -> int {
    if s.len() > 0 && s[0] == 45 {
        -(digits_value(unsigned_part(s)) as int)
    } else {
        digits_value(unsigned_part(s)) as int
    }
}

/// The millidegrees that raw text holds: the text is trimmed, must then be
/// whole-number text, and its number must fit in 64 bits.
pub open spec fn millidegrees_of(raw: Seq<u8>) -> Option<i64> {
    let text = trimmed(raw);
    if is_integer_text(text) && i64::MIN <= signed_value(text) <= i64::MAX {
        Some(signed_value(text) as i64)
    } else {
        None
    }
}

/// The temperature taken from raw text, with the default for text that
/// holds none.
pub open spec fn converted(raw: Seq<u8>) -> i64 {
    match millidegrees_of(raw) {
        Some(millidegrees) => millidegrees,
        None => UNREADABLE_MILLIDEGREES,
    }
}

fn is_space_byte(b: u8) -> (out: bool)
    ensures
        out == is_space(b),
{
    b == 32 || (9 <= b && b <= 13)
}

/// Parses raw sensor text as whole millidegrees Celsius. Surrounding white
/// space is ignored; what is left must be an optional sign and decimal
/// digits whose number fits in 64 bits, else there is no reading.
pub fn parse_millidegrees(raw: &[u8]) -> (out: Option<i64>)
    ensures
        out == millidegrees_of(raw@),
{
    let len: usize = raw.len();
    let mut start: usize = 0;
    assert(raw@.skip(0) =~= raw@);
    while start < len && is_space_byte(raw[start])
        invariant
            start <= len,
            len == raw@.len(),
            trim_start(raw@) == trim_start(raw@.skip(start as int)),
        decreases len - start,
    {
        proof {
            assert(raw@.skip(start as int).skip(1) =~= raw@.skip(start as int + 1));
        }
        start += 1;
    }
    assert(trim_start(raw@) == raw@.skip(start as int));
    assert(raw@.skip(start as int) =~= raw@.subrange(start as int, len as int));
    let mut end: usize = len;
    while end > start && is_space_byte(raw[end - 1])
        invariant
            start <= end <= len,
            len == raw@.len(),
            trimmed(raw@) == trim_end(raw@.subrange(start as int, end as int)),
        decreases end,
    {
        proof {
            assert(raw@.subrange(start as int, end as int).drop_last() =~= raw@.subrange(
                start as int,
                end as int - 1,
            ));
        }
        end -= 1;
    }
    let ghost text = raw@.subrange(start as int, end as int);
    assert(trimmed(raw@) == text);
    let mut pos: usize = start;
    let mut negative: bool = false;
    if pos < end && (raw[pos] == 43 || raw[pos] == 45) {
        negative = raw[pos] == 45;
        pos += 1;
    }
    let ghost body = raw@.subrange(pos as int, end as int);
    assert(body =~= unsigned_part(text));
    assert(negative == (text.len() > 0 && text[0] == 45));
    if pos == end {
        return None;
    }
    let limit: u64 = 9223372036854775808;
    let mut acc: u64 = 0;
    let mut overflow: bool = false;
    let mut i: usize = pos;
    while i < end
        invariant
            pos <= i <= end <= len,
            len == raw@.len(),
            limit == 9223372036854775808,
            body == raw@.subrange(pos as int, end as int),
            body.len() > 0,
            text == trimmed(raw@),
            body == unsigned_part(text),
            negative == (text.len() > 0 && text[0] == 45),
            all_digits(raw@.subrange(pos as int, i as int)),
            !overflow ==> acc == digits_value(raw@.subrange(pos as int, i as int)) && acc <= limit,
            overflow ==> digits_value(raw@.subrange(pos as int, i as int)) > limit,
        decreases end - i,
    {
        let b: u8 = raw[i];
        if b < 48 || b > 57 {
            assert(body[i - pos] == b);
            return None;
        }
        let d: u64 = (b - 48) as u64;
        proof {
            let before = raw@.subrange(pos as int, i as int);
            let after = raw@.subrange(pos as int, i as int + 1);
            assert(after.drop_last() =~= before);
            assert(after.last() == b);
            assert(digits_value(after) == digits_value(before) * 10 + d);
            assert forall|k: int| 0 <= k < after.len() implies is_digit(#[trigger] after[k]) by {
                if k < before.len() {
                    assert(after[k] == before[k]);
                }
            }
        }
        if !overflow {
            if acc > (limit - d) / 10 {
                overflow = true;
            } else {
                acc = acc * 10 + d;
            }
        }
        i += 1;
    }
    assert(raw@.subrange(pos as int, i as int) == body);
    if overflow {
        None
    } else if negative {
        if acc == limit {
            Some(i64::MIN)
        } else {
            Some(-(acc as i64))
        }
    } else if acc == limit {
        None
    } else {
        Some(acc as i64)
    }
}

/// Converts raw sensor text to whole millidegrees Celsius; text that holds
/// no reading gives [`UNREADABLE_MILLIDEGREES`] and never an error.
pub fn convert_temperature(raw: &[u8]) -> (millidegrees: i64)
    ensures
        millidegrees == converted(raw@),
{
    match parse_millidegrees(raw) {
        Some(millidegrees) => millidegrees,
        None => UNREADABLE_MILLIDEGREES,
    }
}

} // verus!
