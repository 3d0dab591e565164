use vstd::prelude::*;
use vstd::string::StrSliceExecFns;
use vstd::string::StringExecFns;

verus! {

/// A length of time, as whole seconds and the nanoseconds beyond them.
#[derive(Debug, Clone, Copy, PartialEq, Eq, Structural)]
pub struct TimeSpan {
    pub secs: u64,
    pub nanos: u32,
}

impl TimeSpan {
    /// Nanoseconds stay below one second, as in `std::time::Duration`.
    pub open spec fn is_well_formed(self) -> bool {
        self.nanos < 1_000_000_000
    }
}

/// The retry constraint: a number of attempts or a total length of time.
#[derive(Debug, Clone, Copy, PartialEq, Eq, Structural)]
pub enum Retry {
    ForDuration(TimeSpan),
    NumberOfTimes(u64),
}

/// Why a duration was not understood.
#[derive(Debug)]
pub enum DurationError {
    /// No unit, or a unit other than `ns`, `us`, `ms`, `s`, `m`, `h`, `d`, `w`, `y`.
    Format,
    /// The duration does not fit.
    Overflow,
    /// A number in it is not a valid `u64`.
    ParseInt(std::num::ParseIntError),
}

#[verifier::external_type_specification]
#[verifier::external_body]
pub struct ExParseIntError(std::num::ParseIntError);

/// What `duration_string`'s parser makes of a string: the whole seconds and
/// the nanoseconds of the duration, or `None` where it refuses the string.
pub uninterp spec fn duration_string_parse(s: Seq<char>) -> Option<(u64, u32)>;

/// Calls `<duration_string::DurationString as FromStr>::from_str`.
///
/// Claims that the result is the named parse of `s`, that its nanoseconds
/// stay below one second (they come from `Duration::subsec_nanos`), and that
/// a string whose last character is `x` is refused: the parser requires every
/// number to be followed by one of its units, and none of them ends in `x`.
/// Which of the error variants comes back is not stated.
#[verifier::external_body]
fn duration_string_from_str(s: &str) -> (r: Result<TimeSpan, DurationError>)
    ensures
        match r {
            Ok(span) => duration_string_parse(s@) == Some((span.secs, span.nanos))
                && span.is_well_formed(),
            Err(_) => duration_string_parse(s@) is None,
        },
        s@.len() > 0 && s@.last() == 'x' ==> r is Err,
{
    match <duration_string::DurationString as std::str::FromStr>::from_str(s) {
        Ok(parsed) => {
            let duration: std::time::Duration = parsed.into();
            Ok(TimeSpan { secs: duration.as_secs(), nanos: duration.subsec_nanos() })
        },
        Err(duration_string::Error::Format) => Err(DurationError::Format),
        Err(duration_string::Error::Overflow) => Err(DurationError::Overflow),
        Err(duration_string::Error::ParseInt(err)) => Err(DurationError::ParseInt(err)),
    }
}

/// The duration that `s` denotes, in the format `[0-9]+(ns|us|ms|[smhdwy])`.
pub fn duration_from_str(s: &str) -> (r: Result<TimeSpan, DurationError>)
    ensures
        match r {
            Ok(span) => duration_string_parse(s@) == Some((span.secs, span.nanos))
                && span.is_well_formed(),
            Err(_) => duration_string_parse(s@) is None,
        },
        s@.len() > 0 && s@.last() == 'x' ==> r is Err,
{
    duration_string_from_str(s)
}

/// The text that `{:?}` gives for a string: the string in double quotes,
/// with quotes, backslashes and unprintable characters escaped.
pub uninterp spec fn debug_quoted(s: Seq<char>) -> Seq<char>;

/// Calls `<str as Debug>::fmt` through `format!("{:?}", s)`; claims that the
/// result is the named quoting of `s`.
#[verifier::external_body]
fn debug_quote(s: &str) -> (r: String)
    ensures
        r@ == debug_quoted(s@),
{
    format!("{:?}", s)
}

/// `s` without its last character; an empty `s` stays empty.
pub fn remove_last_character(value: &str) -> (r: &str)
    ensures
        r@ == if value@.len() == 0 {
            value@
        } else {
            value@.drop_last()
        },
{
    let n = value.unicode_len();
    if n == 0 {
        value
    } else {
        value.substring_char(0, n - 1)
    }
}

pub open spec fn is_decimal_digit(c: char) -> bool {
    '0' <= c <= '9'
}

/// The number that a string of decimal digits denotes.
pub open spec fn decimal_value(digits: Seq<char>) -> int
    decreases digits.len(),
{
    if digits.len() == 0 {
        0
    } else {
        decimal_value(digits.drop_last()) * 10 + (digits.last() as int - '0' as int)
    }
}

pub open spec fn all_decimal_digits(digits: Seq<char>) -> bool {
    forall|i: int| 0 <= i < digits.len() ==> is_decimal_digit(#[trigger] digits[i])
}

/// A count as the documented format `[0-9]+` writes it: at least one decimal
/// digit and nothing else (no sign, no space), denoting a number that fits in
/// a `u64`.
pub open spec fn parsed_u64(s: Seq<char>) -> Option<u64> {
    if s.len() > 0 && all_decimal_digits(s) && decimal_value(s) <= u64::MAX {
        Some(decimal_value(s) as u64)
    } else {
        None
    }
}

proof fn lemma_decimal_value_nonnegative(digits: Seq<char>)
    requires
        forall|i: int| 0 <= i < digits.len() ==> is_decimal_digit(#[trigger] digits[i]),
    ensures
        decimal_value(digits) >= 0,
    decreases digits.len(),
{
    if digits.len() > 0 {
        let shorter = digits.drop_last();
        assert forall|i: int| 0 <= i < shorter.len() implies is_decimal_digit(#[trigger] shorter[i]) by {
            assert(shorter[i] == digits[i]);
        }
        lemma_decimal_value_nonnegative(shorter);
        assert(is_decimal_digit(digits[digits.len() - 1]));
    }
}

/// Parses a count written in decimal digits `[0-9]+` into a `u64`.
pub fn parse_u64(s: &str) -> (r: Option<u64>)
    ensures
        r == parsed_u64(s@),
{
    let n = s.unicode_len();
    let ghost chars = s@;
    if n == 0 {
        return None;
    }
    let mut value: u64 = 0;
    let mut overflowed = false;
    let mut i: usize = 0;
    while i < n
        invariant
            i <= n,
            n == chars.len(),
            chars == s@,
            forall|j: int| 0 <= j < i ==> is_decimal_digit(#[trigger] chars[j]),
            !overflowed ==> value == decimal_value(chars.subrange(0, i as int)),
            overflowed ==> decimal_value(chars.subrange(0, i as int)) > u64::MAX,
        decreases n - i,
    {
        let c = s.get_char(i);
        if !('0' <= c && c <= '9') {
            proof {
                assert(!is_decimal_digit(chars[i as int]));
                assert(!all_decimal_digits(chars));
            }
            return None;
        }
        let d: u64 = (c as u64) - ('0' as u64);
        proof {
            let prev = chars.subrange(0, i as int);
            let next = chars.subrange(0, i + 1);
            assert(next.drop_last() == prev);
            assert(next.last() == c);
            assert forall|j: int| 0 <= j < prev.len() implies is_decimal_digit(#[trigger] prev[j]) by {
                assert(prev[j] == chars[j]);
            }
            lemma_decimal_value_nonnegative(prev);
        }
        if !overflowed {
            match value.checked_mul(10) {
                Some(tens) => match tens.checked_add(d) {
                    Some(next) => {
                        value = next;
                    },
                    None => {
                        overflowed = true;
                    },
                },
                None => {
                    overflowed = true;
                },
            }
        }
        i = i + 1;
    }
    proof {
        assert(chars.subrange(0, n as int) == chars);
        assert(all_decimal_digits(chars));
    }
    if overflowed {
        None
    } else {
        Some(value)
    }
}

/// What `--up-to` means: `Nx` with `N` a decimal `u64` is a number of
/// attempts; anything else is read as a duration; `None` where neither fits.
pub open spec fn retry_parse(s: Seq<char>) -> Option<Retry> {
    if attempts_asked(s) is Some {
        Some(Retry::NumberOfTimes(attempts_asked(s)->0))
    } else {
        match duration_string_parse(s) {
            Some((secs, nanos)) => Some(Retry::ForDuration(TimeSpan { secs, nanos })),
            None => None,
        }
    }
}

/// The explanation shown for a retry constraint that could not be read.
pub open spec fn retry_error_message(input: Seq<char>) -> Seq<char> {
    "Unable to parse retry constraint from "@ + debug_quoted(input) + RETRY_FORMAT_HELP@
}

/// What follows the rejected input in the error message.
pub const RETRY_FORMAT_HELP: &'static str = "\n\nThe accepted format is: [0-9]+(x|ns|us|ms|[smhdwy])\n\nExamples\nRetry 10 times: retry --up-to 10x ./foo\nRetry for 100s: retry --up-to 100s ./foo";

/// A retry constraint that is neither a number of attempts nor a duration.
#[derive(Debug, Clone, PartialEq, Eq)]
pub struct RetryParseError {
    pub input: String,
}

impl RetryParseError {
    /// The message shown for this error: the input, quoted as `{:?}` quotes
    /// it, and the accepted format with examples.
    pub fn message(&self) -> (m: String)
        ensures
            m@ == retry_error_message(self.input@),
    {
        let mut m = String::from_str("Unable to parse retry constraint from ");
        let quoted = debug_quote(self.input.as_str());
        m.append(quoted.as_str());
        m.append(RETRY_FORMAT_HELP);
        m
    }
}

/// The number of attempts that `s` asks for: `N` followed by `x`, with `N` a
/// decimal `u64`.
pub open spec fn attempts_asked(s: Seq<char>) -> Option<u64> {
    if s.len() > 0 && s.last() == 'x' {
        parsed_u64(s.drop_last())
    } else {
        None
    }
}

impl Retry {
    /// Reads a retry constraint: `Nx` for `N` attempts, or a duration in the
    /// format `[0-9]+(ns|us|ms|[smhdwy])`.
    pub fn from_str(s: &str) -> (r: Result<Retry, RetryParseError>)
        ensures
            match r {
                Ok(retry) => retry_parse(s@) == Some(retry),
                Err(err) => retry_parse(s@) is None && err.input@ == s@,
            },
            r matches Ok(Retry::ForDuration(span)) ==> span.is_well_formed(),
            s@.len() > 0 && s@.last() == 'x' ==> !(r matches Ok(Retry::ForDuration(_))),
            s@.len() > 0 && s@.last() == 'x' && attempts_asked(s@) is None ==> r is Err,
    {
        if let Some(retries) = Retry::attempts_from_str(s) {
            return Ok(Retry::NumberOfTimes(retries));
        }
        Retry::from_duration(s, duration_string_from_str(s))
    }

    /// The number of attempts `s` asks for, if it has the form `Nx`.
    pub fn attempts_from_str(s: &str) -> (attempts: Option<u64>)
        ensures
            attempts == attempts_asked(s@),
    {
        let n = s.unicode_len();
        if n > 0 && s.get_char(n - 1) == 'x' {
            parse_u64(remove_last_character(s))
        } else {
            None
        }
    }

    /// The constraint for `input` given what the duration parser made of it.
    pub fn from_duration(input: &str, duration: Result<TimeSpan, DurationError>) -> (r: Result<
        Retry,
        RetryParseError,
    >)
        ensures
            match duration {
                Ok(span) => r == Ok::<Retry, RetryParseError>(Retry::ForDuration(span)),
                Err(_) => r matches Err(err) && err.input@ == input@,
            },
    {
        match duration {
            Ok(duration) => Ok(Retry::ForDuration(duration)),
            Err(_) => Err(RetryParseError { input: String::from_str(input) }),
        }
    }
}

/// `N` followed by `x`, for any decimal `N` that fits in a `u64`, asks for
/// exactly `N` attempts.
pub proof fn law_count_then_x_is_number_of_times(digits: Seq<char>)
    requires
        digits.len() > 0,
        all_decimal_digits(digits),
        decimal_value(digits) <= u64::MAX,
    ensures
        retry_parse(digits.push('x')) == Some(Retry::NumberOfTimes(decimal_value(digits) as u64)),
{
    assert(digits.push('x').drop_last() == digits);
}

} // verus!
