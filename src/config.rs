use vstd::prelude::*;
use vstd::string::*;

use crate::error::WeatherError;

verus! {

/// The run's settings, read from the command line.
pub struct Config {
    /// How many upcoming hours to aggregate.
    pub hours: usize,
}

pub open spec fn is_digit(c: char) -> bool {
    '0' <= c && c <= '9'
}

/// The number that a sequence of decimal digits denotes.
pub open spec fn digits_value(d: Seq<char>) -> nat
    decreases d.len(),
{
    if d.len() == 0 {
        0
    } else {
        digits_value(d.drop_last()) * 10 + (d.last() as nat - '0' as nat) as nat
    }
}

/// The digits of a count text: the text without one leading `+`, if any.
pub open spec fn count_digits(s: Seq<char>) -> Seq<char> {
    if s.len() > 0 && s[0] == '+' {
        s.skip(1)
    } else {
        s
    }
}

/// A count text is an optional `+` followed by one or more decimal digits.
pub open spec fn is_count_text(s: Seq<char>) -> bool {
    count_digits(s).len() > 0 && all_digits(count_digits(s))
}

/// Every character is a decimal digit.
pub open spec fn all_digits(d: Seq<char>) -> bool {
    forall|i: int| 0 <= i < d.len() ==> is_digit(#[trigger] d[i])
}

/// The digits of a longer prefix never denote a smaller number.
proof fn lemma_digits_value_grows(d: Seq<char>, j: int, k: int)
    requires
        0 <= j <= k <= d.len(),
        all_digits(d),
    ensures
        digits_value(d.take(j)) <= digits_value(d.take(k)),
    decreases k - j,
{
    if j < k {
        lemma_digits_value_grows(d, j, k - 1);
        assert(d.take(k).drop_last() == d.take(k - 1));
        assert(is_digit(d[k - 1]));
    }
}

/// Reads the hour count: an optional `+` and decimal digits whose value fits
/// in `usize`. Any other text gives `InvalidArgument`.
pub fn parse_hours(text: &str) -> (r: Result<usize, WeatherError>)
    ensures
        r is Ok <==> is_count_text(text@) && digits_value(count_digits(text@)) <= usize::MAX,
        r is Ok ==> r->Ok_0 == digits_value(count_digits(text@)),
        r is Err ==> r->Err_0 == WeatherError::InvalidArgument,
{
    let n = text.unicode_len();
    let start: usize = if n > 0 && text.get_char(0) == '+' {
        1
    } else {
        0
    };
    let ghost d = count_digits(text@);
    assert(d == text@.skip(start as int));
    if start == n {
        return Err(WeatherError::InvalidArgument);
    }
    let mut acc: usize = 0;
    let mut i: usize = start;
    while i < n
        invariant
            n == text@.len(),
            start <= i <= n,
            d == text@.skip(start as int),
            d == count_digits(text@),
            forall|j: int| 0 <= j < i - start ==> is_digit(#[trigger] d[j]),
            acc == digits_value(d.take(i - start)),
        decreases n - i,
    {
        let c = text.get_char(i);
        assert(c == d[i - start]);
        if !('0' <= c && c <= '9') {
            assert(!is_digit(d[i - start]));
            return Err(WeatherError::InvalidArgument);
        }
        let digit = (c as u32 - '0' as u32) as usize;
        assert(d.take(i - start + 1).drop_last() == d.take(i - start));
        assert(digits_value(d.take(i - start + 1)) == acc * 10 + digit);
        let next = match acc.checked_mul(10) {
            Some(m) => m.checked_add(digit),
            None => None,
        };
        match next {
            Some(v) => {
                acc = v;
            },
            None => {
                proof {
                    if is_count_text(text@) {
                        lemma_digits_value_grows(d, i - start + 1, d.len() as int);
                        assert(d.take(d.len() as int) == d);
                    }
                }
                return Err(WeatherError::InvalidArgument);
            },
        }
        i = i + 1;
    }
    assert(d.take(n - start) == d);
    Ok(acc)
}

impl Config {
    /// Reads the configuration from the process arguments: the second one is
    /// the hour count. A missing or malformed count gives `InvalidArgument`.
    pub fn new(args: &[String]) -> (r: Result<Config, WeatherError>)
        ensures
            r is Ok <==> args@.len() >= 2 && parse_hours_ok(args@[1]@),
            r is Ok ==> r->Ok_0.hours == digits_value(count_digits(args@[1]@)),
            r is Err ==> r->Err_0 == WeatherError::InvalidArgument,
    {
        if args.len() < 2 {
            return Err(WeatherError::InvalidArgument);
        }
        match parse_hours(args[1].as_str()) {
            Ok(hours) => Ok(Config { hours }),
            Err(e) => Err(e),
        }
    }
}

/// The text is an hour count that `parse_hours` accepts.
pub open spec fn parse_hours_ok(s: Seq<char>) -> bool {
    is_count_text(s) && digits_value(count_digits(s)) <= usize::MAX
}

} // verus!
