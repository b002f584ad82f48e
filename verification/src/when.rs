//! A bound of the window as it is written on the command line: a date and
//! time, or a length of time followed by the word `ago`.

use crate::time::utc_timestamp_exists;
use crate::time::Instant;
use crate::time::Span;
use dateparser::DateTimeUtc;
use std::str::FromStr;
use vstd::prelude::*;

verus! {

/// The failure of humantime to read a length of time.
#[verifier::external_type_specification]
#[verifier::external_body]
pub struct ExDurationError(humantime::DurationError);

/// The failure of dateparser to read a date and time.
#[verifier::external_type_specification]
#[verifier::external_body]
pub struct ExAnyhowError(anyhow::Error);

/// The seconds and nanoseconds of the length of time that humantime reads
/// in a text; none where humantime refuses the text.
pub uninterp spec fn humantime_duration(text: Seq<char>) -> Option<(u64, u32)>;

/// The value of a decimal digit; none for any other character.
pub open spec fn spec_digit_of(c: char) -> Option<u8> {
    if c == '0' {
        Some(0u8)
    } else if c == '1' {
        Some(1u8)
    } else if c == '2' {
        Some(2u8)
    } else if c == '3' {
        Some(3u8)
    } else if c == '4' {
        Some(4u8)
    } else if c == '5' {
        Some(5u8)
    } else if c == '6' {
        Some(6u8)
    } else if c == '7' {
        Some(7u8)
    } else if c == '8' {
        Some(8u8)
    } else if c == '9' {
        Some(9u8)
    } else {
        None
    }
}

/// How many decimal digits a text holds.
pub open spec fn digit_count(text: Seq<char>) -> nat
    decreases text.len(),
{
    if text.len() == 0 {
        0
    } else {
        digit_count(text.drop_last()) + if spec_digit_of(text.last()) is Some {
            1nat
        } else {
            0nat
        }
    }
}

/// The most decimal digits that a length of time may be written with.
/// With so many digits the seconds stay far below the most that a length
/// of time can hold, whatever the units.
pub open spec fn max_span_digits() -> nat {
    11
}

/// At this place of the text stands what dateparser reads as an offset from
/// UTC of a day or more: a sign, two digits that make 24 or more, and two
/// more digits, with or without a colon before them.
pub open spec fn zone_hour_at(text: Seq<char>, i: int) -> bool {
    &&& 0 <= i
    &&& i + 4 < text.len()
    &&& (text[i] == '+' || text[i] == '-')
    &&& spec_digit_of(text[i + 1]) is Some
    &&& spec_digit_of(text[i + 2]) is Some
    &&& spec_digit_of(text[i + 1])->0 * 10 + spec_digit_of(text[i + 2])->0 >= 24
    &&& {
        ||| spec_digit_of(text[i + 3]) is Some && spec_digit_of(text[i + 4]) is Some
        ||| text[i + 3] == ':' && i + 5 < text.len() && spec_digit_of(text[i + 4]) is Some
            && spec_digit_of(text[i + 5]) is Some
    }
}

/// Somewhere in the text stands an offset from UTC of a day or more.
pub open spec fn zone_hour_out_of_range(text: Seq<char>) -> bool {
    exists|i: int| zone_hour_at(text, i)
}

/// Calls `from_str` of `humantime::Duration` and takes the length of time
/// apart with `as_secs` and `subsec_nanos` of `std::time::Duration`. What is
/// read is only given its name; the nanoseconds are under one second, as
/// std documents for `subsec_nanos`. A text with more than eleven digits is
/// left out: humantime carries a full second of nanoseconds over without a
/// test where the seconds are at their most, and with eleven digits the
/// seconds cannot get there.
#[verifier::external_body]
fn parse_span(text: &str) -> (r: Result<(u64, u32), humantime::DurationError>)
    requires
        digit_count(text@) <= max_span_digits(),
    ensures
        r is Ok <==> humantime_duration(text@) is Some,
        r matches Ok(span) ==> humantime_duration(text@) == Some(span) && span.1 < 1_000_000_000,
{
    let span: std::time::Duration = humantime::Duration::from_str(text)?.into();
    Ok((span.as_secs(), span.subsec_nanos()))
}

/// Calls `from_str` of `dateparser::DateTimeUtc` and gives the timestamp of
/// the date and time that it read. Where the text names no time zone or no
/// date, dateparser goes by the time zone and the clock of the machine, so
/// nothing is said of what comes back. A text that holds an offset from UTC
/// of a day or more is left out: dateparser hands such an offset to
/// `chrono::FixedOffset::east`, which does not return on it.
#[verifier::external_body]
fn parse_utc(text: &str) -> (r: Result<(i64, u32), anyhow::Error>)
    requires
        !zone_hour_out_of_range(text@),
{
    let time = DateTimeUtc::from_str(text)?.0;
    Ok((time.timestamp(), time.timestamp_subsec_nanos()))
}

/// A bound of the window: an instant, or a length of time back from now.
#[derive(Clone, Copy, Debug, PartialEq, Eq, Structural)]
pub enum TimeOrDuration {
    DateTime(Instant),
    Ago(Span),
}

/// Why a bound could not be read.
#[derive(Debug)]
pub enum ParseError {
    /// What stands before `ago` is no length of time.
    Duration(humantime::DurationError),
    /// The text is no date and time.
    DateTime(anyhow::Error),
    /// What stands before `ago` is written with more than eleven digits.
    TooManyDigits,
    /// The text holds an offset from UTC of a day or more.
    ZoneOutOfRange,
    /// The date and time that was read is none that chrono can hold as a
    /// timestamp.
    Unrepresentable,
}

/// The word that marks a length of time back from now, with the space
/// before it.
pub open spec fn ago_suffix() -> Seq<char> {
    seq![' ', 'a', 'g', 'o']
}

/// The text ends with ` ago`.
pub open spec fn ends_with_ago(text: Seq<char>) -> bool {
    text.len() >= 4 && text.subrange(text.len() - 4, text.len() as int) == ago_suffix()
}

/// The text without its last four characters.
pub open spec fn before_ago(text: Seq<char>) -> Seq<char> {
    text.subrange(0, text.len() - 4)
}

/// What a length of time that was read, or the failure to read one, makes
/// of a bound.
pub open spec fn spec_from_parsed_span(
    parsed: Result<Span, humantime::DurationError>,
    r: Result<TimeOrDuration, ParseError>,
) -> bool {
    match parsed {
        Ok(span) => r matches Ok(TimeOrDuration::Ago(ago)) && ago == span,
        Err(e) => r matches Err(ParseError::Duration(cause)) && cause == e,
    }
}

/// What a timestamp that was read, or the failure to read one, makes of a
/// bound.
pub open spec fn spec_from_parsed_utc(
    parsed: Result<(i64, u32), anyhow::Error>,
    r: Result<TimeOrDuration, ParseError>,
) -> bool {
    match parsed {
        Ok(t) => if utc_timestamp_exists(t.0, t.1) {
            r matches Ok(TimeOrDuration::DateTime(time)) && time.spec_timestamp() == t.0
                && time.spec_subsec_nanos() == t.1
        } else {
            r matches Err(ParseError::Unrepresentable)
        },
        Err(e) => r matches Err(ParseError::DateTime(cause)) && cause == e,
    }
}

/// The value of a decimal digit; none for any other character.
pub fn digit_of(c: char) -> (r: Option<u8>)
    ensures
        r == spec_digit_of(c),
{
    if c == '0' {
        Some(0)
    } else if c == '1' {
        Some(1)
    } else if c == '2' {
        Some(2)
    } else if c == '3' {
        Some(3)
    } else if c == '4' {
        Some(4)
    } else if c == '5' {
        Some(5)
    } else if c == '6' {
        Some(6)
    } else if c == '7' {
        Some(7)
    } else if c == '8' {
        Some(8)
    } else if c == '9' {
        Some(9)
    } else {
        None
    }
}

/// The characters of a text.
pub fn chars_of(text: &str) -> (r: Vec<char>)
    ensures
        r@ == text@,
{
    let mut out: Vec<char> = Vec::new();
    for c in it: text.chars()
        invariant
            out@ == it.seq().take(it.index() as int),
            it.seq() == text@,
    {
        proof {
            assert(it.seq().take(it.index() + 1) =~= it.seq().take(it.index() as int).push(c));
        }
        out.push(c);
    }
    out
}

/// Whether a text holds more decimal digits than a length of time may be
/// written with.
pub fn has_too_many_digits(text: &str) -> (r: bool)
    ensures
        r == (digit_count(text@) > max_span_digits()),
{
    let chars = chars_of(text);
    let mut count: usize = 0;
    let mut i: usize = 0;
    proof {
        assert(chars@.take(0) =~= Seq::<char>::empty());
    }
    while i < chars.len()
        invariant
            0 <= i <= chars@.len(),
            chars@ == text@,
            count == digit_count(chars@.take(i as int)),
            count <= i,
        decreases chars@.len() - i,
    {
        proof {
            assert(chars@.take(i + 1).drop_last() =~= chars@.take(i as int));
            assert(chars@.take(i + 1).last() == chars@[i as int]);
        }
        if digit_of(chars[i]).is_some() {
            count = count + 1;
        }
        i = i + 1;
    }
    proof {
        assert(chars@.take(i as int) =~= chars@);
    }
    count > 11
}

/// Whether an offset from UTC of a day or more stands at a place of the
/// text.
pub fn is_zone_hour_at(chars: &Vec<char>, i: usize) -> (r: bool)
    ensures
        r == zone_hour_at(chars@, i as int),
{
    let len = chars.len();
    if len < 5 || i >= len - 4 {
        return false;
    }
    if chars[i] != '+' && chars[i] != '-' {
        return false;
    }
    let hour = match (digit_of(chars[i + 1]), digit_of(chars[i + 2])) {
        (Some(tens), Some(ones)) => tens * 10 + ones,
        _ => {
            return false;
        },
    };
    if hour < 24 {
        return false;
    }
    if digit_of(chars[i + 3]).is_some() {
        if digit_of(chars[i + 4]).is_some() {
            return true;
        }
    }
    chars[i + 3] == ':' && i + 5 < len && digit_of(chars[i + 4]).is_some() && digit_of(
        chars[i + 5],
    ).is_some()
}

/// Whether a text holds an offset from UTC of a day or more.
pub fn has_zone_hour_out_of_range(text: &str) -> (r: bool)
    ensures
        r == zone_hour_out_of_range(text@),
{
    let chars = chars_of(text);
    let mut i: usize = 0;
    while i < chars.len()
        invariant
            0 <= i <= chars@.len(),
            chars@ == text@,
            forall|j: int| 0 <= j < i ==> !zone_hour_at(chars@, j),
        decreases chars@.len() - i,
    {
        if is_zone_hour_at(&chars, i) {
            return true;
        }
        i = i + 1;
    }
    proof {
        assert forall|j: int| !zone_hour_at(text@, j) by {
            if 0 <= j < chars@.len() {
                assert(!zone_hour_at(chars@, j));
            }
        }
    }
    false
}

/// The text before ` ago`, where the text ends with it.
pub fn strip_ago(text: &str) -> (r: Option<&str>)
    ensures
        r is Some <==> ends_with_ago(text@),
        r matches Some(rest) ==> rest@ == before_ago(text@) && text@ == rest@ + ago_suffix(),
{
    let len = text.unicode_len();
    if len < 4 {
        return None;
    }
    if text.get_char(len - 4) == ' ' && text.get_char(len - 3) == 'a' && text.get_char(len - 2)
        == 'g' && text.get_char(len - 1) == 'o' {
        let rest = text.substring_char(0, len - 4);
        proof {
            assert(text@.subrange(len - 4, len as int) =~= ago_suffix());
            assert(text@ =~= rest@ + ago_suffix());
        }
        Some(rest)
    } else {
        proof {
            let tail = text@.subrange(len - 4, len as int);
            assert(tail[0] == text@[len - 4]);
            assert(tail[1] == text@[len - 3]);
            assert(tail[2] == text@[len - 2]);
            assert(tail[3] == text@[len - 1]);
            assert(ago_suffix()[0] == ' ');
            assert(ago_suffix()[1] == 'a');
            assert(ago_suffix()[2] == 'g');
            assert(ago_suffix()[3] == 'o');
        }
        None
    }
}

impl TimeOrDuration {
    /// The length of time back from now that was read, or the failure to
    /// read one, as a bound.
    pub fn from_parsed_span(parsed: Result<Span, humantime::DurationError>) -> (r: Result<
        TimeOrDuration,
        ParseError,
    >)
        ensures
            spec_from_parsed_span(parsed, r),
    {
        match parsed {
            Ok(span) => Ok(TimeOrDuration::Ago(span)),
            Err(e) => Err(ParseError::Duration(e)),
        }
    }

    /// The timestamp of the date and time that was read, or the failure to
    /// read one, as a bound. A timestamp for which chrono has no instant
    /// is no bound.
    pub fn from_parsed_utc(parsed: Result<(i64, u32), anyhow::Error>) -> (r: Result<
        TimeOrDuration,
        ParseError,
    >)
        ensures
            spec_from_parsed_utc(parsed, r),
    {
        match parsed {
            Ok((secs, nanos)) => match Instant::from_timestamp(secs, nanos) {
                Some(time) => Ok(TimeOrDuration::DateTime(time)),
                None => Err(ParseError::Unrepresentable),
            },
            Err(e) => Err(ParseError::DateTime(e)),
        }
    }

    /// Reads a bound. A text that ends with ` ago` is a length of time back
    /// from now, and what stands before ` ago` is read by humantime, unless
    /// it is written with more than eleven digits. Any other text is a date
    /// and time, and is read by dateparser, unless it holds an offset from
    /// UTC of a day or more.
    pub fn from_str(text: &str) -> (r: Result<TimeOrDuration, ParseError>)
        ensures
            ends_with_ago(text@) && digit_count(before_ago(text@)) > max_span_digits() ==> r
                matches Err(ParseError::TooManyDigits),
            ends_with_ago(text@) && digit_count(before_ago(text@)) <= max_span_digits()
                ==> match humantime_duration(before_ago(text@)) {
                Some(span) => r matches Ok(TimeOrDuration::Ago(ago)) && ago.spec_secs() == span.0
                    && ago.spec_subsec_nanos() == span.1,
                None => r matches Err(ParseError::Duration(_)),
            },
            !ends_with_ago(text@) && zone_hour_out_of_range(text@) ==> r matches Err(
                ParseError::ZoneOutOfRange,
            ),
            !ends_with_ago(text@) && !zone_hour_out_of_range(text@) ==> match r {
                Ok(bound) => bound is DateTime,
                Err(e) => e is DateTime || e is Unrepresentable,
            },
    {
        match strip_ago(text) {
            Some(ago) => {
                if has_too_many_digits(ago) {
                    return Err(ParseError::TooManyDigits);
                }
                let parsed = match parse_span(ago) {
                    Ok((secs, nanos)) => Ok(Span::from_normal(secs, nanos)),
                    Err(e) => Err(e),
                };
                TimeOrDuration::from_parsed_span(parsed)
            },
            None => {
                if has_zone_hour_out_of_range(text) {
                    return Err(ParseError::ZoneOutOfRange);
                }
                TimeOrDuration::from_parsed_utc(parse_utc(text))
            },
        }
    }

    /// The instant that the bound stands for at a given time: the instant
    /// itself, or the one that lies the length of time before now. Where
    /// chrono has no such instant, the bound is the earliest instant that
    /// it has. A length of time back from now never gives an instant after
    /// now.
    pub fn resolve(self, now: &Instant) -> (r: Instant)
        ensures
            r.is_representable(),
            self matches TimeOrDuration::DateTime(time) ==> r == time,
            self matches TimeOrDuration::Ago(span) ==> match now.spec_checked_sub(span) {
                Some(then) => r.spec_timestamp() == then.0 && r.spec_subsec_nanos() == then.1,
                None => r.is_earliest(),
            },
            self is Ago ==> !now.is_before(r),
    {
        let then = match self {
            TimeOrDuration::DateTime(time) => time,
            TimeOrDuration::Ago(span) => match now.checked_sub(&span) {
                Some(then) => then,
                None => Instant::earliest(),
            },
        };
        proof {
            use_type_invariant(&then);
            use_type_invariant(now);
        }
        then
    }
}

} // verus!
