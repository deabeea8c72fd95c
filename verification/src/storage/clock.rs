//! The UTC day as the clock gives it.
use crate::text::is_ascii_digit;
use vstd::prelude::*;

verus! {

/// A UTC day read from the clock, as "%Y-%m-%d" writes it. Only
/// `utc_now_formatted` makes one, from the clock, so a `UtcDay` is always a
/// reading of the clock.
#[derive(Clone, Debug)]
pub struct UtcDay {
    text: String,
}

impl View for UtcDay {
    type V = Seq<char>;

    closed spec fn view(&self) -> Seq<char> {
        self.text@
    }
}

impl UtcDay {
    /// The text of the day.
    pub fn as_str(&self) -> (s: &str)
        ensures
            s@ == self@,
    {
        self.text.as_str()
    }
}

/// The value of the two decimal digits `a` and `b`.
pub open spec fn two_digit_value(a: char, b: char) -> int {
    (a as int - '0' as int) * 10 + (b as int - '0' as int)
}

/// A year as chrono's "%Y" writes one from 1970 on: four digits up to 9999,
/// and past it a '+' followed by five digits or more.
pub open spec fn is_year_text(y: Seq<char>) -> bool {
    ||| y.len() == 4 && forall|i: int| 0 <= i < 4 ==> is_ascii_digit(#[trigger] y[i])
    ||| y.len() >= 6 && y[0] == '+' && forall|i: int| 1 <= i < y.len() ==> is_ascii_digit(#[trigger] y[i])
}

/// A calendar day as "%Y-%m-%d" writes it: the year, '-', a month from 01 to
/// 12, '-', and a day of the month from 01 to 31.
pub open spec fn is_day_stamp(s: Seq<char>) -> bool {
    let n = s.len() as int;
    &&& n >= 10
    &&& is_year_text(s.subrange(0, n - 6))
    &&& s[n - 6] == '-'
    &&& is_ascii_digit(s[n - 5]) && is_ascii_digit(s[n - 4])
    &&& 1 <= two_digit_value(s[n - 5], s[n - 4]) <= 12
    &&& s[n - 3] == '-'
    &&& is_ascii_digit(s[n - 2]) && is_ascii_digit(s[n - 1])
    &&& 1 <= two_digit_value(s[n - 2], s[n - 1]) <= 31
}

/// Calls `chrono::Utc::now()` and formats the time it returns with
/// `chrono::DateTime::format`, keeping the text as a `UtcDay`. chrono panics when it renders an invalid
/// format, so `requires` admits the one format the library uses, the
/// calendar day. The day itself depends on the clock and is not stated; what
/// holds of every outcome is its shape: chrono writes the year with four
/// digits, or with a '+' and five digits or more past 9999 (the clock is
/// never before 1970: `Utc::now` panics there), then the two-digit month and
/// day.
#[verifier::external_body]
pub(crate) fn utc_now_formatted(format: &str) -> (day: UtcDay)
    requires
        format@ == "%Y-%m-%d"@,
    ensures
        is_day_stamp(day@),
{
    UtcDay { text: chrono::Utc::now().format(format).to_string() }
}


} // verus!
