//! Human-readable renderings of times and durations.
use vstd::prelude::*;
use vstd::string::StringExecFns;

verus! {

/// Relies on `String::push`: appends one character to the string.
pub assume_specification[ String::push ](s: &mut String, ch: char)
    ensures
        final(s)@ == old(s)@.push(ch),
;

/// The decimal digit character for `d < 10`.
pub open spec fn digit_char_of(d: int) -> char {
    if d == 0 {
        '0'
    } else if d == 1 {
        '1'
    } else if d == 2 {
        '2'
    } else if d == 3 {
        '3'
    } else if d == 4 {
        '4'
    } else if d == 5 {
        '5'
    } else if d == 6 {
        '6'
    } else if d == 7 {
        '7'
    } else if d == 8 {
        '8'
    } else {
        '9'
    }
}

/// Decimal notation of `n`, without leading zeros.
pub open spec fn decimal(n: nat) -> Seq<char>
    decreases n,
{
    if n < 10 {
        seq![digit_char_of(n as int)]
    } else {
        decimal(n / 10).push(digit_char_of((n % 10) as int))
    }
}

/// Decimal notation of `n`, with a leading zero below 10.
pub open spec fn two_digits(n: nat) -> Seq<char> {
    if n < 10 {
        seq!['0'] + decimal(n)
    } else {
        decimal(n)
    }
}

fn digit_char(d: u64) -> (c: char)
    requires
        d < 10,
    ensures
        c == digit_char_of(d as int),
{
    if d == 0 {
        '0'
    } else if d == 1 {
        '1'
    } else if d == 2 {
        '2'
    } else if d == 3 {
        '3'
    } else if d == 4 {
        '4'
    } else if d == 5 {
        '5'
    } else if d == 6 {
        '6'
    } else if d == 7 {
        '7'
    } else if d == 8 {
        '8'
    } else {
        '9'
    }
}

fn push_decimal(s: &mut String, n: u64)
    ensures
        final(s)@ == old(s)@ + decimal(n as nat),
    decreases n,
{
    if n >= 10 {
        push_decimal(s, n / 10);
    }
    s.push(digit_char(n % 10));
    assert(final(s)@ =~= old(s)@ + decimal(n as nat)) by {
        if n < 10 {
        }
    }
}

fn push_two_digits(s: &mut String, n: u64)
    ensures
        final(s)@ == old(s)@ + two_digits(n as nat),
{
    if n < 10 {
        s.push('0');
    }
    push_decimal(s, n);
    assert(final(s)@ =~= old(s)@ + two_digits(n as nat));
}

/// `h:mm:ss`-style clock rendering of a duration in seconds: hours, minutes
/// and seconds with two digits each, the hours left out when zero.
pub open spec fn hms_of(total: nat) -> Seq<char> {
    let hours = total / 3600;
    let minutes = (total % 3600) / 60;
    let seconds = total % 60;
    if hours > 0 {
        two_digits(hours) + seq![':'] + two_digits(minutes) + seq![':'] + two_digits(seconds)
    } else {
        two_digits(minutes) + seq![':'] + two_digits(seconds)
    }
}

fn push_hms(s: &mut String, total_seconds: u64)
    ensures
        final(s)@ == old(s)@ + hms_of(total_seconds as nat),
{
    let hours = total_seconds / 3600;
    let rem = total_seconds % 3600;
    let minutes = rem / 60;
    let seconds = rem % 60;
    assert(seconds == total_seconds % 60) by (nonlinear_arith)
        requires
            rem == total_seconds % 3600,
            seconds == rem % 60,
    ;
    if hours > 0 {
        push_two_digits(s, hours);
        s.push(':');
    }
    push_two_digits(s, minutes);
    s.push(':');
    push_two_digits(s, seconds);
    assert(final(s)@ =~= old(s)@ + hms_of(total_seconds as nat));
}

/// Renders a duration as hours, minutes and seconds with two digits each
/// (`01:02:03`), the hours left out when zero (`02:03`).
pub fn hms_u64(total_seconds: u64) -> (r: String)
    ensures
        r@ == hms_of(total_seconds as nat),
{
    let mut s = String::new();
    push_hms(&mut s, total_seconds);
    assert(s@ =~= hms_of(total_seconds as nat));
    s
}

/// One part `<value><unit>` of a spelled-out duration, absent when zero.
pub open spec fn hms_part(value: nat, unit: char) -> Seq<char> {
    if value > 0 {
        decimal(value).push(unit)
    } else {
        Seq::empty()
    }
}

/// Joins the non-empty parts with single spaces.
pub open spec fn join_parts(parts: Seq<Seq<char>>) -> Seq<char>
    decreases parts.len(),
{
    if parts.len() == 0 {
        Seq::empty()
    } else {
        let head = join_parts(parts.drop_last());
        let last = parts.last();
        if last.len() == 0 {
            head
        } else if head.len() == 0 {
            last
        } else {
            head + seq![' '] + last
        }
    }
}

/// `1h 2m 3s`-style rendering of a duration in seconds: zero parts left out,
/// `0s` for zero.
pub open spec fn hms_separate_of(seconds: nat) -> Seq<char> {
    let joined = join_parts(
        seq![
            hms_part(seconds / 3600, 'h'),
            hms_part((seconds % 3600) / 60, 'm'),
            hms_part(seconds % 60, 's'),
        ],
    );
    if joined.len() == 0 {
        seq!['0', 's']
    } else {
        joined
    }
}

/// Renders a duration spelled out in hours, minutes and seconds, leaving out
/// the parts that are zero (`1h 3s`); zero renders as `0s`.
pub fn hms_separate(seconds: u64) -> (r: String)
    ensures
        r@ == hms_separate_of(seconds as nat),
{
    let hours = seconds / 3600;
    let minutes = (seconds % 3600) / 60;
    let secs = seconds % 60;
    let mut s = String::new();
    let ghost part_h = hms_part(hours as nat, 'h');
    let ghost part_m = hms_part(minutes as nat, 'm');
    let ghost part_s = hms_part(secs as nat, 's');
    let ghost parts = seq![part_h, part_m, part_s];
    assert(parts.subrange(0, 1).drop_last() =~= Seq::<Seq<char>>::empty());
    assert(parts.subrange(0, 2).drop_last() =~= parts.subrange(0, 1));
    assert(parts.drop_last() =~= parts.subrange(0, 2));
    assert(decimal(hours as nat).len() > 0);
    assert(decimal(minutes as nat).len() > 0);
    assert(decimal(secs as nat).len() > 0);
    if hours > 0 {
        push_decimal(&mut s, hours);
        s.push('h');
    }
    assert(join_parts(Seq::<Seq<char>>::empty()) == Seq::<char>::empty());
    assert(parts.subrange(0, 1).last() == part_h);
    assert(s@ =~= join_parts(parts.subrange(0, 1)));
    if minutes > 0 {
        if s.unicode_len() > 0 {
            s.push(' ');
        }
        push_decimal(&mut s, minutes);
        s.push('m');
    }
    assert(s@ =~= join_parts(parts.subrange(0, 2)));
    if secs > 0 {
        if s.unicode_len() > 0 {
            s.push(' ');
        }
        push_decimal(&mut s, secs);
        s.push('s');
    }
    assert(s@ =~= join_parts(parts));
    if s.unicode_len() == 0 {
        s.push('0');
        s.push('s');
    }
    assert(s@ =~= hms_separate_of(seconds as nat));
    s
}

/// Pattern of a time of day, `hh:mm:ss`.
pub const TIME_PATTERN: &'static str = "%H:%M:%S";

/// Pattern of a date and time, `dd-mm-yyyy hh:mm:ss`.
pub const DATE_TIME_PATTERN: &'static str = "%d-%m-%Y %H:%M:%S";

/// The rendering, by chrono, of the UTC time `timestamp` seconds after the
/// Unix epoch in `pattern`; `None` where chrono cannot represent that time.
pub uninterp spec fn utc_formatted(timestamp: int, pattern: Seq<char>) -> Option<Seq<char>>;

/// Relies on chrono's `DateTime::<Utc>::from_timestamp_secs`, which gives
/// `None` outside chrono's range of times, and on `DateTime::format`, whose
/// rendering depends on the time and the pattern alone.
#[verifier::external_body]
fn format_utc(timestamp: i64, pattern: &str) -> (r: Option<String>)
    requires
        pattern@ == TIME_PATTERN@ || pattern@ == DATE_TIME_PATTERN@,
    ensures
        r is None <==> utc_formatted(timestamp as int, pattern@) is None,
        r matches Some(s) ==> utc_formatted(timestamp as int, pattern@) == Some(s@),
{
    match chrono::DateTime::<chrono::Utc>::from_timestamp_secs(timestamp) {
        Some(t) => Some(t.format(pattern).to_string()),
        None => None,
    }
}

/// Two renderings joined as a range, `a - b`.
pub open spec fn range_text(a: Seq<char>, b: Seq<char>) -> Seq<char> {
    a + seq![' ', '-', ' '] + b
}

/// `<from>s - <to>s`.
pub open spec fn offset_seconds_text(from: nat, to: nat) -> Seq<char> {
    range_text(decimal(from).push('s'), decimal(to).push('s'))
}

/// Renders a span of seconds from the start of the recording as `12s - 42s`.
pub fn format_offset_seconds(start_time: u64, from: u64, to: u64) -> (r: String)
    ensures
        r@ == offset_seconds_text(from as nat, to as nat),
{
    let mut s = String::new();
    push_decimal(&mut s, from);
    s.append("s - ");
    push_decimal(&mut s, to);
    s.push('s');
    proof {
        reveal_strlit("s - ");
    }
    assert(s@ =~= offset_seconds_text(from as nat, to as nat));
    s
}

/// Renders a span of seconds from the start of the recording as clock
/// durations, `00:12 - 01:00:42`.
pub fn format_offset_time_string(start_time: u64, from: u64, to: u64) -> (r: String)
    ensures
        r@ == range_text(hms_of(from as nat), hms_of(to as nat)),
{
    let mut s = String::new();
    push_hms(&mut s, from);
    s.append(" - ");
    push_hms(&mut s, to);
    proof {
        reveal_strlit(" - ");
    }
    assert(s@ =~= range_text(hms_of(from as nat), hms_of(to as nat)));
    s
}

/// The rendering in `pattern` of the span `from .. to` seconds after the
/// Unix time `start_time`: `None` where a bound lies beyond what chrono can
/// represent.
pub open spec fn utc_range_text(start_time: nat, from: nat, to: nat, pattern: Seq<char>) -> Option<
    Seq<char>,
> {
    let a = start_time + from;
    let b = start_time + to;
    if a > i64::MAX || b > i64::MAX {
        None
    } else {
        match (utc_formatted(a as int, pattern), utc_formatted(b as int, pattern)) {
            (Some(x), Some(y)) => Some(range_text(x, y)),
            _ => None,
        }
    }
}

fn format_utc_range(start_time: u64, from: u64, to: u64, pattern: &str) -> (r: Option<String>)
    requires
        pattern@ == TIME_PATTERN@ || pattern@ == DATE_TIME_PATTERN@,
    ensures
        r is None <==> utc_range_text(start_time as nat, from as nat, to as nat, pattern@) is None,
        r matches Some(s) ==> utc_range_text(start_time as nat, from as nat, to as nat, pattern@)
            == Some(s@),
{
    let a = start_time as u128 + from as u128;
    let b = start_time as u128 + to as u128;
    if a > i64::MAX as u128 || b > i64::MAX as u128 {
        return None;
    }
    let first = format_utc(a as i64, pattern);
    let second = format_utc(b as i64, pattern);
    match (first, second) {
        (Some(x), Some(y)) => {
            let mut s = x;
            s.append(" - ");
            s.append(y.as_str());
            proof {
                reveal_strlit(" - ");
            }
            assert(s@ =~= range_text(x@, y@));
            Some(s)
        },
        _ => None,
    }
}

/// Renders the span `from .. to` seconds after the Unix time `start_time` as
/// UTC times of day, `hh:mm:ss - hh:mm:ss`; `None` beyond chrono's range.
pub fn format_time_string(start_time: u64, from: u64, to: u64) -> (r: Option<String>)
    ensures
        r is None <==> utc_range_text(start_time as nat, from as nat, to as nat, TIME_PATTERN@)
            is None,
        r matches Some(s) ==> utc_range_text(start_time as nat, from as nat, to as nat, TIME_PATTERN@)
            == Some(s@),
{
    format_utc_range(start_time, from, to, TIME_PATTERN)
}

/// Renders the span `from .. to` seconds after the Unix time `start_time` as
/// UTC dates and times, `dd-mm-yyyy hh:mm:ss - dd-mm-yyyy hh:mm:ss`; `None`
/// beyond chrono's range.
pub fn format_datetime_string(start_time: u64, from: u64, to: u64) -> (r: Option<String>)
    ensures
        r is None <==> utc_range_text(start_time as nat, from as nat, to as nat, DATE_TIME_PATTERN@)
            is None,
        r matches Some(s) ==> utc_range_text(
            start_time as nat,
            from as nat,
            to as nat,
            DATE_TIME_PATTERN@,
        ) == Some(s@),
{
    format_utc_range(start_time, from, to, DATE_TIME_PATTERN)
}

/// Renders the Unix time `timestamp` as a UTC date and time,
/// `dd-mm-yyyy hh:mm:ss`; `None` beyond chrono's range.
pub fn date_time_string(timestamp: u64) -> (r: Option<String>)
    ensures
        timestamp > i64::MAX ==> r is None,
        timestamp <= i64::MAX ==> {
            &&& r is None <==> utc_formatted(timestamp as int, DATE_TIME_PATTERN@) is None
            &&& r matches Some(s) ==> utc_formatted(timestamp as int, DATE_TIME_PATTERN@) == Some(
                s@,
            )
        },
{
    if timestamp > i64::MAX as u64 {
        return None;
    }
    format_utc(timestamp as i64, DATE_TIME_PATTERN)
}

/// The ways of rendering the span of the current window, cycled through by
/// the viewer.
#[derive(Debug, Clone, Copy, PartialEq, Eq, Structural)]
pub enum TimeFormatter {
    OffsetSeconds,
    OffsetTime,
    Time,
    DateTime,
}

impl TimeFormatter {
    /// The formatter that follows this one, wrapping round.
    pub fn next(&self) -> (r: TimeFormatter)
        ensures
            *self == TimeFormatter::OffsetSeconds ==> r == TimeFormatter::OffsetTime,
            *self == TimeFormatter::OffsetTime ==> r == TimeFormatter::Time,
            *self == TimeFormatter::Time ==> r == TimeFormatter::DateTime,
            *self == TimeFormatter::DateTime ==> r == TimeFormatter::OffsetSeconds,
    {
        match self {
            TimeFormatter::OffsetSeconds => TimeFormatter::OffsetTime,
            TimeFormatter::OffsetTime => TimeFormatter::Time,
            TimeFormatter::Time => TimeFormatter::DateTime,
            TimeFormatter::DateTime => TimeFormatter::OffsetSeconds,
        }
    }

    /// Renders the span `from .. to`, in seconds after the source's start at
    /// Unix time `start_time`.
    pub fn format(&self, start_time: u64, from: u64, to: u64) -> (r: Option<String>)
        ensures
            *self == TimeFormatter::OffsetSeconds ==> (r matches Some(s) && s@
                == offset_seconds_text(from as nat, to as nat)),
            *self == TimeFormatter::OffsetTime ==> (r matches Some(s) && s@ == range_text(
                hms_of(from as nat),
                hms_of(to as nat),
            )),
            *self == TimeFormatter::Time ==> {
                &&& r is None <==> utc_range_text(
                    start_time as nat,
                    from as nat,
                    to as nat,
                    TIME_PATTERN@,
                ) is None
                &&& r matches Some(s) ==> utc_range_text(
                    start_time as nat,
                    from as nat,
                    to as nat,
                    TIME_PATTERN@,
                ) == Some(s@)
            },
            *self == TimeFormatter::DateTime ==> {
                &&& r is None <==> utc_range_text(
                    start_time as nat,
                    from as nat,
                    to as nat,
                    DATE_TIME_PATTERN@,
                ) is None
                &&& r matches Some(s) ==> utc_range_text(
                    start_time as nat,
                    from as nat,
                    to as nat,
                    DATE_TIME_PATTERN@,
                ) == Some(s@)
            },
    {
        match self {
            TimeFormatter::OffsetSeconds => Some(format_offset_seconds(start_time, from, to)),
            TimeFormatter::OffsetTime => Some(format_offset_time_string(start_time, from, to)),
            TimeFormatter::Time => format_time_string(start_time, from, to),
            TimeFormatter::DateTime => format_datetime_string(start_time, from, to),
        }
    }
}

} // verus!
