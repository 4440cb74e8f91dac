//! The local time in front of each line of the log.

use vstd::prelude::*;
use crate::process::{decimal, is_digit, law_a_number_is_written_in_digits};

verus! {

/// A day of the calendar and a second of that day.
pub struct Civil {
    pub year: int,
    pub month: int,
    pub day: int,
    pub hour: int,
    pub minute: int,
    pub second: int,
}

/// `year` has a 29th of February, by the Gregorian calendar.
pub open spec fn is_leap_year(year: int) -> bool {
    year % 4 == 0 && (year % 100 != 0 || year % 400 == 0)
}

/// The number of days of a month.
pub open spec fn month_length(year: int, month: int) -> int {
    if month == 2 {
        if is_leap_year(year) {
            29
        } else {
            28
        }
    } else if month == 4 || month == 6 || month == 9 || month == 11 {
        30
    } else {
        31
    }
}

/// The calendar has that day, and the day that second. Years are those that
/// `chrono` can hold.
pub open spec fn is_civil(t: Civil) -> bool {
    &&& -262143 <= t.year <= 262142
    &&& 1 <= t.month <= 12
    &&& 1 <= t.day <= month_length(t.year, t.month)
    &&& 0 <= t.hour < 24
    &&& 0 <= t.minute < 60
    &&& 0 <= t.second < 60
}

/// The decimal digits of a number.
pub open spec fn digits(n: nat) -> Seq<char>
    decreases n,
{
    if n < 10 {
        seq![('0' as nat + n) as char]
    } else {
        digits(n / 10).push(('0' as nat + n % 10) as char)
    }
}

/// The decimal digits of a number, behind zeros up to a width.
pub open spec fn padded(n: nat, width: nat) -> Seq<char> {
    if digits(n).len() < width {
        Seq::new((width - digits(n).len()) as nat, |i: int| '0') + digits(n)
    } else {
        digits(n)
    }
}

/// A year in at least four digits, with a sign where it is not one of the years
/// from 0 to 9999.
pub open spec fn year_text(year: int) -> Seq<char> {
    if 0 <= year <= 9999 {
        padded(year as nat, 4)
    } else if year > 9999 {
        seq!['+'] + padded(year as nat, 4)
    } else {
        seq!['-'] + padded((-year) as nat, 4)
    }
}

/// A time as the log writes it: year, month and day between hyphens, and behind a
/// space hour, minute and second between colons.
pub open spec fn timestamp_text(t: Civil) -> Seq<char> {
    year_text(t.year) + "-"@ + padded(t.month as nat, 2) + "-"@ + padded(t.day as nat, 2) + " "@
        + padded(t.hour as nat, 2) + ":"@ + padded(t.minute as nat, 2) + ":"@ + padded(
        t.second as nat,
        2,
    )
}

/// The form of the time in the log, as `chrono` understands it.
pub const TIMESTAMP_FORMAT: &'static str = "%Y-%m-%d %H:%M:%S";

/// `chrono::NaiveDateTime::format` and what it hands back made a string, on the
/// given day and second. For this format the year comes in at least four digits,
/// with a sign outside the years from 0 to 9999, the other parts in two digits,
/// and what stands between them is copied.
#[verifier::external_body]
fn chrono_format(
    year: i32,
    month: u32,
    day: u32,
    hour: u32,
    minute: u32,
    second: u32,
    format: &str,
) -> (text: String)
    requires
        is_civil(
            Civil {
                year: year as int,
                month: month as int,
                day: day as int,
                hour: hour as int,
                minute: minute as int,
                second: second as int,
            },
        ),
        format@ == "%Y-%m-%d %H:%M:%S"@,
    ensures
        text@ == timestamp_text(
            Civil {
                year: year as int,
                month: month as int,
                day: day as int,
                hour: hour as int,
                minute: minute as int,
                second: second as int,
            },
        ),
{
    let date = chrono::NaiveDate::from_ymd_opt(year, month, day).unwrap();
    date.and_hms_opt(hour, minute, second).unwrap().format(format).to_string()
}

/// A local time, to the second.
#[derive(Debug, Clone, Copy)]
pub struct LocalTime {
    year: i32,
    month: u32,
    day: u32,
    hour: u32,
    minute: u32,
    second: u32,
}

impl View for LocalTime {
    type V = Civil;

    closed spec fn view(&self) -> Civil {
        Civil {
            year: self.year as int,
            month: self.month as int,
            day: self.day as int,
            hour: self.hour as int,
            minute: self.minute as int,
            second: self.second as int,
        }
    }
}

/// The number of days of a month.
#[verifier::spinoff_prover]
fn days_of_month(year: i32, month: u32) -> (days: u32)
    ensures
        days == month_length(year as int, month as int),
{
    if month == 2 {
        if year % 4 == 0 && (year % 100 != 0 || year % 400 == 0) {
            29
        } else {
            28
        }
    } else if month == 4 || month == 6 || month == 9 || month == 11 {
        30
    } else {
        31
    }
}

impl LocalTime {
    /// The calendar has that day, and the day that second.
    #[verifier::type_invariant]
    closed spec fn wf(self) -> bool {
        is_civil(self@)
    }

    /// The time of that day and second, where there is one.
    pub fn new(year: i32, month: u32, day: u32, hour: u32, minute: u32, second: u32) -> (time: Option<
        LocalTime,
    >)
        ensures
            ({
                let t = Civil {
                    year: year as int,
                    month: month as int,
                    day: day as int,
                    hour: hour as int,
                    minute: minute as int,
                    second: second as int,
                };
                match time {
                    Some(local) => is_civil(t) && local@ == t,
                    None => !is_civil(t),
                }
            }),
    {
        if year < -262143 || year > 262142 || month < 1 || month > 12 || day < 1 || hour >= 24
            || minute >= 60 || second >= 60 {
            return None;
        }
        if day > days_of_month(year, month) {
            return None;
        }
        Some(LocalTime { year, month, day, hour, minute, second })
    }

    /// The time as the log writes it.
    pub fn timestamp(&self) -> (text: String)
        ensures
            text@ == timestamp_text(self@),
    {
        proof {
            use_type_invariant(self);
        }
        chrono_format(
            self.year,
            self.month,
            self.day,
            self.hour,
            self.minute,
            self.second,
            TIMESTAMP_FORMAT,
        )
    }
}

/// A number of one or two digits takes two places.
proof fn two_places(n: nat)
    requires
        n < 100,
    ensures
        padded(n, 2).len() == 2,
{
    reveal_with_fuel(digits, 3);
}

/// In the years from 0 to 9999 every time takes nineteen places.
pub proof fn law_timestamps_have_one_width(t: Civil)
    requires
        is_civil(t),
        0 <= t.year <= 9999,
    ensures
        timestamp_text(t).len() == 19,
{
    reveal_strlit("-");
    reveal_strlit(" ");
    reveal_strlit(":");
    two_places(t.month as nat);
    two_places(t.day as nat);
    two_places(t.hour as nat);
    two_places(t.minute as nat);
    two_places(t.second as nat);
    assert(padded(t.year as nat, 4).len() == 4) by {
        reveal_with_fuel(digits, 5);
    }
}

/// The calendar: twelve months of 31 and 30 days, and a second one of 28, or of 29 in
/// every fourth year but those of full centuries that four hundred does not divide; a
/// day of 24 hours of 60 minutes of 60 seconds.
pub proof fn law_the_calendar(t: Civil)
    ensures
        is_civil(t) <==> {
            &&& -262143 <= t.year <= 262142
            &&& 0 <= t.hour <= 23
            &&& 0 <= t.minute <= 59
            &&& 0 <= t.second <= 59
            &&& t.day >= 1
            &&& {
                ||| t.day <= 31 && (t.month == 1 || t.month == 3 || t.month == 5 || t.month == 7
                    || t.month == 8 || t.month == 10 || t.month == 12)
                ||| t.day <= 30 && (t.month == 4 || t.month == 6 || t.month == 9 || t.month == 11)
                ||| t.day <= 28 && t.month == 2
                ||| t.day == 29 && t.month == 2 && t.year % 4 == 0 && (t.year % 100 != 0 || t.year
                    % 400 == 0)
            }
        },
{
}

/// A time is had exactly for a day of the calendar and a second of that day; it is that
/// day and that second, and its text is theirs.
pub proof fn law_a_time_is_its_parts(
    year: i32,
    month: u32,
    day: u32,
    hour: u32,
    minute: u32,
    second: u32,
    time: Option<LocalTime>,
    text: String,
)
    requires
        call_ensures(LocalTime::new, (year, month, day, hour, minute, second), time),
        time matches Some(local) ==> call_ensures(LocalTime::timestamp, (&local,), text),
    ensures
        ({
            let t = Civil {
                year: year as int,
                month: month as int,
                day: day as int,
                hour: hour as int,
                minute: minute as int,
                second: second as int,
            };
            &&& time is Some <==> is_civil(t)
            &&& time matches Some(local) ==> local@ == t && text@ == timestamp_text(t)
        }),
{
}

/// Zeros in front of a row of digits leave what it writes.
proof fn zeros_write_nothing(k: nat, s: Seq<char>)
    ensures
        decimal(Seq::new(k, |i: int| '0') + s) == decimal(s),
    decreases k + s.len(),
{
    let zeros = Seq::new(k, |i: int| '0');
    if s.len() > 0 {
        assert((zeros + s).drop_last() =~= zeros + s.drop_last());
        assert((zeros + s).last() == s.last());
        zeros_write_nothing(k, s.drop_last());
    } else {
        assert(zeros + s =~= zeros);
        if k > 0 {
            let fewer = Seq::new((k - 1) as nat, |i: int| '0');
            assert(zeros.drop_last() =~= fewer);
            zeros_write_nothing((k - 1) as nat, s);
            assert(fewer + s =~= fewer);
        } else {
            assert(zeros =~= s);
        }
    }
}

/// A number with zeros in front is written in digits, takes at least the given width,
/// no more than it where its own digits do not, and writes the number.
pub proof fn law_a_padded_number_writes_the_number(n: nat, width: nat)
    ensures
        forall|i: int| 0 <= i < padded(n, width).len() ==> is_digit(#[trigger] padded(n, width)[i]),
        decimal(padded(n, width)) == n,
        padded(n, width).len() >= width,
        digits(n).len() <= width ==> padded(n, width).len() == width,
        digits(n).len() >= width ==> padded(n, width) == digits(n),
{
    law_a_number_is_written_in_digits(n);
    if digits(n).len() < width {
        let k = (width - digits(n).len()) as nat;
        zeros_write_nothing(k, digits(n));
        assert forall|i: int| 0 <= i < padded(n, width).len() implies is_digit(
            #[trigger] padded(n, width)[i],
        ) by {
            if i >= k {
                assert(padded(n, width)[i] == digits(n)[i - k]);
            }
        }
    }
}

/// From the years 0 to 9999 a time is written in nineteen places, in which each of its
/// parts can be read again.
pub proof fn law_a_timestamp_shows_its_parts(t: Civil)
    requires
        is_civil(t),
        0 <= t.year <= 9999,
    ensures
        ({
            let text = timestamp_text(t);
            &&& text.len() == 19
            &&& decimal(text.subrange(0, 4)) == t.year
            &&& text[4] == '-'
            &&& decimal(text.subrange(5, 7)) == t.month
            &&& text[7] == '-'
            &&& decimal(text.subrange(8, 10)) == t.day
            &&& text[10] == ' '
            &&& decimal(text.subrange(11, 13)) == t.hour
            &&& text[13] == ':'
            &&& decimal(text.subrange(14, 16)) == t.minute
            &&& text[16] == ':'
            &&& decimal(text.subrange(17, 19)) == t.second
            &&& forall|i: int|
                0 <= i < 19 && i != 4 && i != 7 && i != 10 && i != 13 && i != 16 ==> is_digit(
                    #[trigger] text[i],
                )
        }),
{
    reveal_strlit("-");
    reveal_strlit(" ");
    reveal_strlit(":");
    let text = timestamp_text(t);
    let year = padded(t.year as nat, 4);
    let month = padded(t.month as nat, 2);
    let day = padded(t.day as nat, 2);
    let hour = padded(t.hour as nat, 2);
    let minute = padded(t.minute as nat, 2);
    let second = padded(t.second as nat, 2);
    law_timestamps_have_one_width(t);
    two_places(t.month as nat);
    two_places(t.day as nat);
    two_places(t.hour as nat);
    two_places(t.minute as nat);
    two_places(t.second as nat);
    assert(year.len() == 4) by {
        reveal_with_fuel(digits, 5);
    }
    law_a_padded_number_writes_the_number(t.year as nat, 4);
    law_a_padded_number_writes_the_number(t.month as nat, 2);
    law_a_padded_number_writes_the_number(t.day as nat, 2);
    law_a_padded_number_writes_the_number(t.hour as nat, 2);
    law_a_padded_number_writes_the_number(t.minute as nat, 2);
    law_a_padded_number_writes_the_number(t.second as nat, 2);
    assert(text.subrange(0, 4) =~= year);
    assert(text.subrange(5, 7) =~= month);
    assert(text.subrange(8, 10) =~= day);
    assert(text.subrange(11, 13) =~= hour);
    assert(text.subrange(14, 16) =~= minute);
    assert(text.subrange(17, 19) =~= second);
    assert forall|i: int|
        0 <= i < 19 && i != 4 && i != 7 && i != 10 && i != 13 && i != 16 implies is_digit(
        #[trigger] text[i],
    ) by {
        assert(i < 4 ==> text[i] == year[i]);
        assert(5 <= i < 7 ==> text[i] == month[i - 5]);
        assert(8 <= i < 10 ==> text[i] == day[i - 8]);
        assert(11 <= i < 13 ==> text[i] == hour[i - 11]);
        assert(14 <= i < 16 ==> text[i] == minute[i - 14]);
        assert(17 <= i ==> text[i] == second[i - 17]);
    }
}

/// Years outside those from 0 to 9999 have a sign in front of at least four digits; what
/// follows the year does not depend on it.
pub proof fn law_other_years_have_a_sign(t: Civil)
    requires
        is_civil(t),
    ensures
        ({
            let text = timestamp_text(t);
            let rest = timestamp_text(Civil { year: 0, ..t }).skip(4);
            let year = text.take(text.len() - 15);
            &&& text.skip(text.len() - 15) == rest
            &&& rest.len() == 15
            &&& t.year > 9999 ==> year[0] == '+' && decimal(year.skip(1)) == t.year
            &&& t.year < 0 ==> year[0] == '-' && decimal(year.skip(1)) == -t.year
            &&& t.year < 0 || t.year > 9999 ==> year.len() >= 5 && forall|i: int|
                1 <= i < year.len() ==> is_digit(#[trigger] year[i])
            &&& -9999 <= t.year < 0 ==> year.len() == 5
            &&& t.year < -9999 || t.year > 9999 ==> year[1] != '0'
        }),
{
    reveal_strlit("-");
    reveal_strlit(" ");
    reveal_strlit(":");
    two_places(t.month as nat);
    two_places(t.day as nat);
    two_places(t.hour as nat);
    two_places(t.minute as nat);
    two_places(t.second as nat);
    let text = timestamp_text(t);
    let zero = timestamp_text(Civil { year: 0, ..t });
    assert(padded(0, 4).len() == 4) by {
        reveal_with_fuel(digits, 2);
    }
    assert(text.take(text.len() - 15) =~= year_text(t.year));
    assert(text.skip(text.len() - 15) =~= zero.skip(4));
    if t.year < 0 || t.year > 9999 {
        let n = (if t.year < 0 {
            -t.year
        } else {
            t.year
        }) as nat;
        let number = padded(n, 4);
        law_a_padded_number_writes_the_number(n, 4);
        law_a_number_is_written_in_digits(n);
        assert(year_text(t.year).skip(1) =~= number);
        assert forall|i: int| 1 <= i < year_text(t.year).len() implies is_digit(
            #[trigger] year_text(t.year)[i],
        ) by {
            assert(year_text(t.year)[i] == number[i - 1]);
        }
        if n <= 9999 {
            assert(digits(n).len() <= 4) by {
                reveal_with_fuel(digits, 5);
            }
        } else {
            assert(digits(n).len() > 4) by {
                reveal_with_fuel(digits, 5);
            }
            assert(year_text(t.year)[1] == digits(n)[0]);
        }
    }
}

} // verus!
