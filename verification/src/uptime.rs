//! Rendering of an uptime in whole seconds as a composite duration:
//! days, hours, minutes and seconds, of which only the nonzero ones are shown.

use vstd::prelude::*;
use vstd::string::*;

verus! {

pub const SECONDS_PER_MINUTE: u64 = 60;

pub const SECONDS_PER_HOUR: u64 = 3600;

pub const SECONDS_PER_DAY: u64 = 86400;

/// Whole days in `seconds`.
pub open spec fn days_of(seconds: nat) -> nat {
    seconds / 86400
}

/// Whole hours left in `seconds` once the days are taken out.
pub open spec fn hours_of(seconds: nat) -> nat {
    (seconds % 86400) / 3600
}

/// Whole minutes left once the hours are taken out.
pub open spec fn minutes_of(seconds: nat) -> nat {
    (seconds % 3600) / 60
}

/// Seconds left once the minutes are taken out.
pub open spec fn seconds_of(seconds: nat) -> nat {
    seconds % 60
}

/// The character of a decimal digit.
pub open spec fn digit_char(d: nat) -> char
    recommends
        d < 10,
{
    if d == 0 {
        '0'
    } else if d == 1 {
        '1'
    } else if d == 2 {
        '2'
    } else if d == 3 {
        '3'
    } else if d == 4 {
        '4'
    } else if d == 5 {
        '5'
    } else if d == 6 {
        '6'
    } else if d == 7 {
        '7'
    } else if d == 8 {
        '8'
    } else {
        '9'
    }
}

/// The decimal numeral of `n`, without leading zeros; zero is "0".
pub open spec fn decimal(n: nat) -> Seq<char>
    decreases n,
{
    if n < 10 {
        seq![digit_char(n)]
    } else {
        decimal(n / 10).push(digit_char(n % 10))
    }
}

pub open spec fn unit_days() -> Seq<char> {
    seq!['d', 'a', 'y', 's']
}

pub open spec fn unit_hours() -> Seq<char> {
    seq!['h', 'o', 'u', 'r', 's']
}

pub open spec fn unit_minutes() -> Seq<char> {
    seq!['m', 'i', 'n', 'u', 't', 'e', 's']
}

pub open spec fn unit_seconds() -> Seq<char> {
    seq!['s', 'e', 'c', 'o', 'n', 'd', 's']
}

/// What stands between two segments: a comma and a space.
pub open spec fn separator() -> Seq<char> {
    seq![',', ' ']
}

/// One segment: the count, a space, and the unit's name.
pub open spec fn segment(count: nat, unit: Seq<char>) -> Seq<char> {
    decimal(count) + seq![' '] + unit
}

/// The segments that a count contributes: none when it is zero, else one.
pub open spec fn shown(count: nat, unit: Seq<char>) -> Seq<Seq<char>> {
    if count == 0 {
        Seq::empty()
    } else {
        seq![segment(count, unit)]
    }
}

/// The segments of an uptime, largest unit first.
pub open spec fn uptime_parts(seconds: nat) -> Seq<Seq<char>> {
    shown(days_of(seconds), unit_days()) + shown(hours_of(seconds), unit_hours()) + shown(
        minutes_of(seconds),
        unit_minutes(),
    ) + shown(seconds_of(seconds), unit_seconds())
}

/// The parts in order, with `sep` between each two neighbours.
pub open spec fn joined(parts: Seq<Seq<char>>, sep: Seq<char>) -> Seq<char>
    decreases parts.len(),
{
    if parts.len() == 0 {
        Seq::empty()
    } else if parts.len() == 1 {
        parts[0]
    } else {
        joined(parts.drop_last(), sep) + sep + parts.last()
    }
}

/// The text shown for an uptime of `seconds` seconds.
pub open spec fn uptime_text(seconds: nat) -> Seq<char> {
    joined(uptime_parts(seconds), separator())
}

/// A segment that shows a count above zero.
pub open spec fn is_nonzero_segment(part: Seq<char>) -> bool {
    exists|count: nat, unit: Seq<char>| count > 0 && part == #[trigger] segment(count, unit)
}

fn digit_text(d: u64) -> (text: &'static str)
    requires
        d < 10,
    ensures
        text@ == seq![digit_char(d as nat)],
{
    proof {
        reveal_strlit("0");
        reveal_strlit("1");
        reveal_strlit("2");
        reveal_strlit("3");
        reveal_strlit("4");
        reveal_strlit("5");
        reveal_strlit("6");
        reveal_strlit("7");
        reveal_strlit("8");
        reveal_strlit("9");
    }
    let text = if d == 0 {
        "0"
    } else if d == 1 {
        "1"
    } else if d == 2 {
        "2"
    } else if d == 3 {
        "3"
    } else if d == 4 {
        "4"
    } else if d == 5 {
        "5"
    } else if d == 6 {
        "6"
    } else if d == 7 {
        "7"
    } else if d == 8 {
        "8"
    } else {
        "9"
    };
    assert(text@ =~= seq![digit_char(d as nat)]);
    text
}

fn append_decimal(out: &mut String, n: u64)
    ensures
        final(out)@ == old(out)@ + decimal(n as nat),
    decreases n,
{
    if n >= 10 {
        append_decimal(out, n / 10);
    }
    out.append(digit_text(n % 10));
    assert(out@ =~= old(out)@ + decimal(n as nat));
}

/// The decimal numeral of `n` as text.
pub fn decimal_text(n: u64) -> (text: String)
    ensures
        text@ == decimal(n as nat),
{
    let mut text = String::new();
    append_decimal(&mut text, n);
    assert(text@ =~= decimal(n as nat));
    text
}

fn append_part(
    out: &mut String,
    started: bool,
    count: u64,
    unit: &str,
    Ghost(parts): Ghost<Seq<Seq<char>>>,
) -> (now_started: bool)
    requires
        old(out)@ == joined(parts, separator()),
        started == (parts.len() > 0),
    ensures
        final(out)@ == joined(parts + shown(count as nat, unit@), separator()),
        now_started == ((parts + shown(count as nat, unit@)).len() > 0),
{
    if count == 0 {
        assert(parts + shown(count as nat, unit@) =~= parts);
        return started;
    }
    proof {
        reveal_strlit(", ");
        reveal_strlit(" ");
    }
    if started {
        out.append(", ");
    }
    append_decimal(out, count);
    out.append(" ");
    out.append(unit);
    proof {
        let part = segment(count as nat, unit@);
        let all = parts + shown(count as nat, unit@);
        assert(all =~= parts.push(part));
        assert(all.drop_last() =~= parts);
        assert(all.last() == part);
        if started {
            assert(out@ =~= joined(parts, separator()) + separator() + part);
        } else {
            assert(joined(parts, separator()) =~= Seq::<char>::empty());
            assert(out@ =~= part);
        }
    }
    true
}

/// Renders an uptime in whole seconds as its nonzero segments, largest unit
/// first and joined by ", ": "1 days, 1 minutes, 1 seconds". An uptime of
/// zero seconds has no segment and gives the empty text.
pub fn formate_time(value: u64) -> (text: String)
    ensures
        text@ == uptime_text(value as nat),
        value == 0 <==> text@.len() == 0,
{
    let days: u64 = value / SECONDS_PER_DAY;
    let hours: u64 = (value % SECONDS_PER_DAY) / SECONDS_PER_HOUR;
    let minutes: u64 = (value % SECONDS_PER_HOUR) / SECONDS_PER_MINUTE;
    let seconds: u64 = value % SECONDS_PER_MINUTE;

    proof {
        reveal_strlit("days");
        reveal_strlit("hours");
        reveal_strlit("minutes");
        reveal_strlit("seconds");
        assert("days"@ =~= unit_days());
        assert("hours"@ =~= unit_hours());
        assert("minutes"@ =~= unit_minutes());
        assert("seconds"@ =~= unit_seconds());
    }
    let mut text = String::new();
    let ghost none: Seq<Seq<char>> = Seq::empty();
    let ghost with_days = none + shown(days as nat, unit_days());
    let ghost with_hours = with_days + shown(hours as nat, unit_hours());
    let ghost with_minutes = with_hours + shown(minutes as nat, unit_minutes());
    let ghost with_seconds = with_minutes + shown(seconds as nat, unit_seconds());
    let started = append_part(&mut text, false, days, "days", Ghost(none));
    let started = append_part(&mut text, started, hours, "hours", Ghost(with_days));
    let started = append_part(&mut text, started, minutes, "minutes", Ghost(with_hours));
    let _ = append_part(&mut text, started, seconds, "seconds", Ghost(with_minutes));
    proof {
        assert(with_seconds =~= uptime_parts(value as nat));
        lemma_empty_only_at_zero(value as nat);
    }
    text
}

/// The four components put the uptime together again, and each one below
/// the largest stays under the size of the next unit.
pub proof fn lemma_components_recompose(seconds: nat)
    ensures
        days_of(seconds) * 86400 + hours_of(seconds) * 3600 + minutes_of(seconds) * 60
            + seconds_of(seconds) == seconds,
        hours_of(seconds) < 24,
        minutes_of(seconds) < 60,
        seconds_of(seconds) < 60,
{
}

/// A numeral is never empty, and that of a positive number does not start
/// with the digit zero.
pub proof fn lemma_decimal_leading_digit(n: nat)
    ensures
        decimal(n).len() > 0,
        n > 0 ==> decimal(n)[0] != '0',
    decreases n,
{
    if n >= 10 {
        lemma_decimal_leading_digit(n / 10);
    }
}

/// No segment of an uptime shows a zero: there is one segment for each
/// nonzero component and none for a zero one, each segment is that of a
/// positive count, and so none begins with the digit zero.
pub proof fn lemma_no_zero_segment(seconds: nat)
    ensures
        uptime_parts(seconds).len() == (if days_of(seconds) > 0 { 1nat } else { 0 }) + (if hours_of(seconds) > 0 { 1nat } else { 0 })
            + (if minutes_of(seconds) > 0 { 1nat } else { 0 }) + (if seconds_of(seconds) > 0 { 1nat } else { 0 }),
        forall|i: int|
            0 <= i < uptime_parts(seconds).len() ==> {
                &&& is_nonzero_segment(#[trigger] uptime_parts(seconds)[i])
                &&& uptime_parts(seconds)[i].len() > 0
                &&& uptime_parts(seconds)[i][0] != '0'
            },
{
    let d = shown(days_of(seconds), unit_days());
    let h = shown(hours_of(seconds), unit_hours());
    let m = shown(minutes_of(seconds), unit_minutes());
    let s = shown(seconds_of(seconds), unit_seconds());
    let parts = uptime_parts(seconds);
    lemma_shown_nonzero(days_of(seconds), unit_days());
    lemma_shown_nonzero(hours_of(seconds), unit_hours());
    lemma_shown_nonzero(minutes_of(seconds), unit_minutes());
    lemma_shown_nonzero(seconds_of(seconds), unit_seconds());
    assert forall|i: int| 0 <= i < parts.len() implies {
        &&& is_nonzero_segment(#[trigger] parts[i])
        &&& parts[i].len() > 0
        &&& parts[i][0] != '0'
    } by {
        if i < d.len() {
            assert(parts[i] == d[i]);
        } else if i < d.len() + h.len() {
            assert(parts[i] == h[i - d.len()]);
        } else if i < d.len() + h.len() + m.len() {
            assert(parts[i] == m[i - d.len() - h.len()]);
        } else {
            assert(parts[i] == s[i - d.len() - h.len() - m.len()]);
        }
    }
}

proof fn lemma_shown_nonzero(count: nat, unit: Seq<char>)
    ensures
        shown(count, unit).len() == (if count > 0 { 1nat } else { 0 }),
        forall|i: int|
            0 <= i < shown(count, unit).len() ==> {
                &&& is_nonzero_segment(#[trigger] shown(count, unit)[i])
                &&& shown(count, unit)[i].len() > 0
                &&& shown(count, unit)[i][0] != '0'
            },
{
    if count > 0 {
        lemma_decimal_leading_digit(count);
        let part = segment(count, unit);
        assert(shown(count, unit)[0] == part);
        assert(part[0] == decimal(count)[0]);
        assert(is_nonzero_segment(part));
    }
}

/// The text of an uptime is empty exactly when the uptime is zero seconds.
pub proof fn lemma_empty_only_at_zero(seconds: nat)
    ensures
        seconds == 0 <==> uptime_text(seconds).len() == 0,
{
    let parts = uptime_parts(seconds);
    lemma_no_zero_segment(seconds);
    if seconds == 0 {
        assert(parts.len() == 0);
    } else {
        assert(days_of(seconds) > 0 || hours_of(seconds) > 0 || minutes_of(seconds) > 0
            || seconds_of(seconds) > 0);
        assert(parts.len() > 0);
        assert(parts.last().len() > 0);
        assert(joined(parts, separator()).len() >= parts.last().len());
    }
}

} // verus!
