//! The proleptic Gregorian calendar, as far as rendering one instant needs it.
//!
//! The calendar is written out rather than taken from a dependency, because the only thing it is
//! needed for is showing an instant that is already held as a number.

use vstd::prelude::*;
use vstd::string::*;

use crate::digits::{
    limit, padded, padded_fills, padded_in_order, padded_reads_back, padded_widths, wide,
};
use crate::order::{before, order_is_kept_behind, order_is_settled_in_front};

verus! {

// --- the calendar itself --------------------------------------------------------------------------

/// Whether a year has a twenty-ninth of February.
pub open spec fn leap(year: int) -> bool {
    year % 4 == 0 && (year % 100 != 0 || year % 400 == 0)
}

/// How many days a month has.
pub open spec fn month_length(year: int, month: int) -> int {
    if month == 2 {
        if leap(year) {
            29
        } else {
            28
        }
    } else if month == 4 || month == 6 || month == 9 || month == 11 {
        30
    } else {
        31
    }
}

/// Whether a year, a month and a day name a date.
pub open spec fn is_date(date: (int, int, int)) -> bool {
    &&& 1 <= date.1 <= 12
    &&& 1 <= date.2 <= month_length(date.0, date.1)
}

/// How many days of a year lie before one of its months.
pub open spec fn days_before_month(year: int, month: int) -> int
    decreases month,
{
    if month <= 1 {
        0
    } else {
        days_before_month(year, month - 1) + month_length(year, month - 1)
    }
}

/// How many days lie between the first day of the year one and the first day of a year.
pub open spec fn days_before_year(year: int) -> int {
    365 * (year - 1) + (year - 1) / 4 - (year - 1) / 100 + (year - 1) / 400
}

/// How many days lie between 1970-01-01 and a date.
pub open spec fn day_number(date: (int, int, int)) -> int {
    days_before_year(date.0) - days_before_year(1970) + days_before_month(date.0, date.1) + date.2
        - 1
}

/// The date that lies `days` days behind 1970-01-01.
pub open spec fn date_of(days: int) -> (int, int, int) {
    choose|date: (int, int, int)| is_date(date) && #[trigger] day_number(date) == days
}

/// How many days lie before each month, month by month.
proof fn months_added_up(year: int)
    ensures
        days_before_month(year, 1) == 0,
        days_before_month(year, 2) == 31,
        days_before_month(year, 3) == 31 + month_length(year, 2),
        days_before_month(year, 4) == 62 + month_length(year, 2),
        days_before_month(year, 5) == 92 + month_length(year, 2),
        days_before_month(year, 6) == 123 + month_length(year, 2),
        days_before_month(year, 7) == 153 + month_length(year, 2),
        days_before_month(year, 8) == 184 + month_length(year, 2),
        days_before_month(year, 9) == 215 + month_length(year, 2),
        days_before_month(year, 10) == 245 + month_length(year, 2),
        days_before_month(year, 11) == 276 + month_length(year, 2),
        days_before_month(year, 12) == 306 + month_length(year, 2),
        days_before_month(year, 13) == 337 + month_length(year, 2),
{
    reveal_with_fuel(days_before_month, 14);
}

/// A year is as long as its months are together.
#[verifier::spinoff_prover]
proof fn year_added_up(year: int)
    ensures
        days_before_year(year + 1) == days_before_year(year) + 337 + month_length(year, 2),
{
    assert(year / 4 - (year - 1) / 4 == if year % 4 == 0 {
        1int
    } else {
        0
    });
    assert(year / 100 - (year - 1) / 100 == if year % 100 == 0 {
        1int
    } else {
        0
    });
    assert(year / 400 - (year - 1) / 400 == if year % 400 == 0 {
        1int
    } else {
        0
    });
}

/// Later years begin later.
proof fn years_in_order(a: int, b: int)
    requires
        a < b,
    ensures
        days_before_year(a) + 337 + month_length(a, 2) <= days_before_year(b),
    decreases b - a,
{
    year_added_up(a);
    if a + 1 < b {
        years_in_order(a + 1, b);
    }
}

/// Later months of a year begin later.
proof fn months_in_order(year: int, a: int, b: int)
    requires
        1 <= a < b <= 13,
    ensures
        days_before_month(year, a) + month_length(year, a) <= days_before_month(year, b),
{
    months_added_up(year);
}

/// Two dates that lie equally many days behind 1970-01-01 are one date.
pub proof fn dates_are_told_apart(a: (int, int, int), b: (int, int, int))
    requires
        is_date(a),
        is_date(b),
        day_number(a) == day_number(b),
    ensures
        a == b,
{
    months_added_up(a.0);
    months_added_up(b.0);
    if a.0 < b.0 {
        years_in_order(a.0, b.0);
    } else if b.0 < a.0 {
        years_in_order(b.0, a.0);
    } else if a.1 < b.1 {
        months_in_order(a.0, a.1, b.1);
    } else if b.1 < a.1 {
        months_in_order(a.0, b.1, a.1);
    }
}

// --- from days to a date --------------------------------------------------------------------------

/// A quotient and what is left of it, rounded down rather than towards zero.
fn split(n: i128, by: i128) -> (r: (i128, i128))
    requires
        by > 0,
    ensures
        r.0 == n as int / by as int,
        r.1 == n as int % by as int,
        0 <= r.1 < by,
{
    proof {
        assert(i128::MIN <= (n as int / by as int) && (n as int / by as int) <= i128::MAX) by (nonlinear_arith)
            requires
                by > 0,
                i128::MIN <= n <= i128::MAX,
        ;
        assert(0 <= (n as int % by as int) && (n as int % by as int) < by) by (nonlinear_arith)
            requires
                by > 0,
        ;
    }
    match (n.checked_div_euclid(by), n.checked_rem_euclid(by)) {
        (Some(quotient), Some(rest)) => (quotient, rest),
        _ => (0, 0),
    }
}

/// Which year of four hundred a day belongs to, the years counted from March.
#[verifier::spinoff_prover]
proof fn year_of_four_hundred(doe: int, yoe: int)
    requires
        0 <= doe < 146097,
        yoe == (doe - doe / 1460 + doe / 36524 - doe / 146096) / 365,
    ensures
        0 <= yoe < 400,
        0 <= doe - (365 * yoe + yoe / 4 - yoe / 100),
        doe - (365 * yoe + yoe / 4 - yoe / 100) < 365 || (doe - (365 * yoe + yoe / 4 - yoe / 100)
            == 365 && leap(yoe + 1)),
{
}

/// Whole eras leave the place of a year within its era alone.
#[verifier::spinoff_prover]
proof fn eras_leave_rests(era: int, n: int)
    ensures
        (n + era * 400) / 4 == n / 4 + 100 * era,
        (n + era * 400) / 100 == n / 100 + 4 * era,
        (n + era * 400) / 400 == n / 400 + era,
        (n + era * 400) % 4 == n % 4,
        (n + era * 400) % 100 == n % 100,
        (n + era * 400) % 400 == n % 400,
{
    let whole = n + era * 400;
    assert(whole == 4 * (n / 4 + 100 * era) + n % 4);
    assert(whole == 100 * (n / 100 + 4 * era) + n % 100);
    assert(whole == 400 * (n / 400 + era) + n % 400);
    vstd::arithmetic::div_mod::lemma_fundamental_div_mod_converse(
        whole,
        4,
        n / 4 + 100 * era,
        n % 4,
    );
    vstd::arithmetic::div_mod::lemma_fundamental_div_mod_converse(
        whole,
        100,
        n / 100 + 4 * era,
        n % 100,
    );
    vstd::arithmetic::div_mod::lemma_fundamental_div_mod_converse(
        whole,
        400,
        n / 400 + era,
        n % 400,
    );
}

/// How many days lie before the first of March of a year, in terms of its era.
#[verifier::spinoff_prover]
proof fn march_of_year(era: int, yoe: int)
    requires
        0 <= yoe < 400,
    ensures
        days_before_year(yoe + era * 400 + 1) == 146097 * era + 365 * yoe + yoe / 4 - yoe / 100,
        leap(yoe + era * 400 + 1) == leap(yoe + 1),
{
    eras_leave_rests(era, yoe);
    eras_leave_rests(era, yoe + 1);
    assert(yoe + era * 400 + 1 == yoe + 1 + era * 400);
}

/// Which month and which day of it a day of a year counted from March is.
#[verifier::spinoff_prover]
proof fn month_of_march_year(year: int, doy: int, month: int, day: int)
    requires
        0 <= doy < 365 || (doy == 365 && leap(year + 1)),
        day == doy - (153 * ((5 * doy + 2) / 153) + 2) / 5 + 1,
        month == if (5 * doy + 2) / 153 < 10 {
            (5 * doy + 2) / 153 + 3
        } else {
            (5 * doy + 2) / 153 - 9
        },
    ensures
        ({
            let date = (if month <= 2 {
                year + 1
            } else {
                year
            }, month, day);
            is_date(date) && day_number(date) == days_before_year(year + 1) - 306
                - days_before_year(1970) + doy
        }),
{
    let mp = (5 * doy + 2) / 153;
    year_added_up(year);
    months_added_up(year);
    months_added_up(year + 1);
    assert(0 <= mp < 12);
    if mp == 0 {
    } else if mp == 1 {
    } else if mp == 2 {
    } else if mp == 3 {
    } else if mp == 4 {
    } else if mp == 5 {
    } else if mp == 6 {
    } else if mp == 7 {
    } else if mp == 8 {
    } else if mp == 9 {
    } else if mp == 10 {
    } else {
        assert(mp == 11);
    }
}

/// The civil date a count of days since 1970-01-01 names, in the proleptic Gregorian calendar.
#[verifier::spinoff_prover]
#[verifier::rlimit(40)]
pub fn civil_from_days(days: i64) -> (r: (i64, i64, i64))
    ensures
        is_date((r.0 as int, r.1 as int, r.2 as int)),
        day_number((r.0 as int, r.1 as int, r.2 as int)) == days,
        (r.0 as int, r.1 as int, r.2 as int) == date_of(days as int),
{
    // The epoch is moved to 0000-03-01, so that the leap day is the last day of the year and the
    // month arithmetic below has no special case in it.
    let shifted: i128 = days as i128 + 719_468;
    let (era, day_of_era): (i128, i128) = split(shifted, 146_097);
    let year_of_era: i128 = (day_of_era - day_of_era / 1460 + day_of_era / 36_524 - day_of_era
        / 146_096) / 365;
    proof {
        year_of_four_hundred(day_of_era as int, year_of_era as int);
        march_of_year(era as int, year_of_era as int);
    }
    let year: i128 = year_of_era + era * 400;
    let day_of_year: i128 = day_of_era - (365 * year_of_era + year_of_era / 4 - year_of_era / 100);
    let shifted_month: i128 = (5 * day_of_year + 2) / 153;
    let day: i128 = day_of_year - (153 * shifted_month + 2) / 5 + 1;
    let month: i128 = if shifted_month < 10 {
        shifted_month + 3
    } else {
        shifted_month - 9
    };
    proof {
        month_of_march_year(year as int, day_of_year as int, month as int, day as int);
        let date = (if month <= 2 {
            year + 1
        } else {
            year as int
        }, month as int, day as int);
        assert(day_number(date) == days);
        dates_are_told_apart(date, date_of(days as int));
    }
    let civil: i128 = if month <= 2 {
        year + 1
    } else {
        year
    };
    (civil as i64, month as i64, day as i64)
}

// --- instants -------------------------------------------------------------------------------------

/// A date and a time of day as RFC 3339 writes them in UTC.
pub open spec fn stamp(
    date: (int, int, int),
    hour: nat,
    minute: nat,
    second: nat,
    milli: nat,
) -> Seq<char> {
    padded(date.0 as nat, 4) + seq!['-'] + padded(date.1 as nat, 2) + seq!['-'] + padded(
        date.2 as nat,
        2,
    ) + seq!['T'] + padded(hour, 2) + seq![':'] + padded(minute, 2) + seq![':'] + padded(second, 2)
        + seq!['.'] + padded(milli, 3) + seq!['Z']
}

/// A Unix millisecond instant as RFC 3339 text in UTC.
pub open spec fn instant_text(unix_millis: nat) -> Seq<char> {
    let seconds = unix_millis / 1000;
    let time = seconds % 86400;
    stamp(
        date_of((seconds / 86400) as int),
        time / 3600,
        (time % 3600) / 60,
        time % 60,
        unix_millis % 1000,
    )
}

/// Every day has a date, and one at or behind 1970-01-01 has a year of 1970 or later.
pub proof fn days_have_dates(days: int)
    ensures
        is_date(date_of(days)),
        day_number(date_of(days)) == days,
        days >= 0 ==> date_of(days).0 >= 1970,
{
    let shifted = days + 719_468;
    let era = shifted / 146_097;
    let doe = shifted % 146_097;
    let yoe = (doe - doe / 1460 + doe / 36524 - doe / 146096) / 365;
    year_of_four_hundred(doe, yoe);
    march_of_year(era, yoe);
    let doy = doe - (365 * yoe + yoe / 4 - yoe / 100);
    let mp = (5 * doy + 2) / 153;
    let month = if mp < 10 {
        mp + 3
    } else {
        mp - 9
    };
    let day = doy - (153 * mp + 2) / 5 + 1;
    let year = yoe + era * 400;
    month_of_march_year(year, doy, month, day);
    let date = (if month <= 2 {
        year + 1
    } else {
        year
    }, month, day);
    assert(is_date(date) && day_number(date) == days);
    let named = date_of(days);
    assert(is_date(named) && day_number(named) == days);
    if days >= 0 && named.0 < 1970 {
        years_in_order(named.0, 1970);
        months_added_up(named.0);
    }
}

/// A Unix millisecond instant as RFC 3339 text in UTC.
pub fn rfc3339(unix_millis: u64) -> (r: String)
    ensures
        r@ == instant_text(unix_millis as nat),
{
    let seconds: i64 = (unix_millis / 1000) as i64;
    let millis: u64 = unix_millis % 1000;
    let (year, month, day): (i64, i64, i64) = civil_from_days(seconds / 86_400);
    let time: i64 = seconds % 86_400;
    proof {
        days_have_dates(seconds as int / 86_400);
        reveal_strlit("-");
        reveal_strlit("T");
        reveal_strlit(":");
        reveal_strlit(".");
        reveal_strlit("Z");
        assert("-"@ =~= seq!['-']);
        assert("T"@ =~= seq!['T']);
        assert(":"@ =~= seq![':']);
        assert("."@ =~= seq!['.']);
        assert("Z"@ =~= seq!['Z']);
    }
    let mut out: String = wide(year as u128, 4);
    out.append("-");
    out.append(wide(month as u128, 2).as_str());
    out.append("-");
    out.append(wide(day as u128, 2).as_str());
    out.append("T");
    out.append(wide((time / 3600) as u128, 2).as_str());
    out.append(":");
    out.append(wide(((time % 3600) / 60) as u128, 2).as_str());
    out.append(":");
    out.append(wide((time % 60) as u128, 2).as_str());
    out.append(".");
    out.append(wide(millis as u128, 3).as_str());
    out.append("Z");
    out
}

// --- laws -----------------------------------------------------------------------------------------

/// Two numbers padded alike are one number.
proof fn same_padding(a: nat, b: nat, width: nat)
    requires
        padded(a, width) == padded(b, width),
    ensures
        a == b,
{
    padded_reads_back(a, width);
    padded_reads_back(b, width);
}

/// Where two texts agree and end on parts of one length, the parts agree and so does the rest.
proof fn peel(a: Seq<char>, x: Seq<char>, b: Seq<char>, y: Seq<char>)
    requires
        a + x == b + y,
        x.len() == y.len(),
    ensures
        a == b,
        x == y,
{
    let whole = a + x;
    assert(whole.len() == a.len() + x.len());
    assert((b + y).len() == b.len() + y.len());
    assert(a =~= whole.take(a.len() as int));
    assert(b =~= whole.take(a.len() as int));
    assert(x =~= whole.skip(a.len() as int));
    assert(y =~= whole.skip(a.len() as int));
}

/// Two dates and times of day that are written alike are alike.
pub proof fn stamps_are_told_apart(
    a: (int, int, int),
    at: (nat, nat, nat, nat),
    b: (int, int, int),
    bt: (nat, nat, nat, nat),
)
    requires
        is_date(a),
        is_date(b),
        a.0 >= 0,
        b.0 >= 0,
        at.0 < 24 && at.1 < 60 && at.2 < 60 && at.3 < 1000,
        bt.0 < 24 && bt.1 < 60 && bt.2 < 60 && bt.3 < 1000,
        stamp(a, at.0, at.1, at.2, at.3) == stamp(b, bt.0, bt.1, bt.2, bt.3),
    ensures
        a == b,
        at == bt,
{
    padded_widths(a.1 as nat);
    padded_widths(b.1 as nat);
    padded_widths(a.2 as nat);
    padded_widths(b.2 as nat);
    padded_widths(at.0);
    padded_widths(bt.0);
    padded_widths(at.1);
    padded_widths(bt.1);
    padded_widths(at.2);
    padded_widths(bt.2);
    padded_widths(at.3);
    padded_widths(bt.3);
    let (a1, b1) = (padded(a.0 as nat, 4), padded(b.0 as nat, 4));
    let (a2, b2) = (a1 + seq!['-'], b1 + seq!['-']);
    let (a3, b3) = (a2 + padded(a.1 as nat, 2), b2 + padded(b.1 as nat, 2));
    let (a4, b4) = (a3 + seq!['-'], b3 + seq!['-']);
    let (a5, b5) = (a4 + padded(a.2 as nat, 2), b4 + padded(b.2 as nat, 2));
    let (a6, b6) = (a5 + seq!['T'], b5 + seq!['T']);
    let (a7, b7) = (a6 + padded(at.0, 2), b6 + padded(bt.0, 2));
    let (a8, b8) = (a7 + seq![':'], b7 + seq![':']);
    let (a9, b9) = (a8 + padded(at.1, 2), b8 + padded(bt.1, 2));
    let (a10, b10) = (a9 + seq![':'], b9 + seq![':']);
    let (a11, b11) = (a10 + padded(at.2, 2), b10 + padded(bt.2, 2));
    let (a12, b12) = (a11 + seq!['.'], b11 + seq!['.']);
    let (a13, b13) = (a12 + padded(at.3, 3), b12 + padded(bt.3, 3));
    peel(a13, seq!['Z'], b13, seq!['Z']);
    peel(a12, padded(at.3, 3), b12, padded(bt.3, 3));
    peel(a11, seq!['.'], b11, seq!['.']);
    peel(a10, padded(at.2, 2), b10, padded(bt.2, 2));
    peel(a9, seq![':'], b9, seq![':']);
    peel(a8, padded(at.1, 2), b8, padded(bt.1, 2));
    peel(a7, seq![':'], b7, seq![':']);
    peel(a6, padded(at.0, 2), b6, padded(bt.0, 2));
    peel(a5, seq!['T'], b5, seq!['T']);
    peel(a4, padded(a.2 as nat, 2), b4, padded(b.2 as nat, 2));
    peel(a3, seq!['-'], b3, seq!['-']);
    peel(a2, padded(a.1 as nat, 2), b2, padded(b.1 as nat, 2));
    peel(a1, seq!['-'], b1, seq!['-']);
    same_padding(a.0 as nat, b.0 as nat, 4);
    same_padding(a.1 as nat, b.1 as nat, 2);
    same_padding(a.2 as nat, b.2 as nat, 2);
    same_padding(at.0, bt.0, 2);
    same_padding(at.1, bt.1, 2);
    same_padding(at.2, bt.2, 2);
    same_padding(at.3, bt.3, 3);
}

/// Two instants that a `u64` of milliseconds can hold are never rendered alike.
pub proof fn instants_are_told_apart(a: u64, b: u64)
    requires
        instant_text(a as nat) == instant_text(b as nat),
    ensures
        a == b,
{
    let (sa, sb) = (a as nat / 1000, b as nat / 1000);
    let (da, db) = (sa as int / 86400, sb as int / 86400);
    let (ca, cb) = (sa % 86400, sb % 86400);
    days_have_dates(da);
    days_have_dates(db);
    stamps_are_told_apart(
        date_of(da),
        (ca / 3600, (ca % 3600) / 60, ca % 60, a as nat % 1000),
        date_of(db),
        (cb / 3600, (cb % 3600) / 60, cb % 60, b as nat % 1000),
    );
    assert(da == db);
    assert(ca == cb);
    assert(sa == sb);
}

/// A date lies before another exactly as its year, its month and its day say, in that order.
pub open spec fn earlier(a: (int, int, int), b: (int, int, int)) -> bool {
    a.0 < b.0 || (a.0 == b.0 && (a.1 < b.1 || (a.1 == b.1 && a.2 < b.2)))
}

/// A date that lies fewer days behind 1970-01-01 is the earlier one.
pub proof fn dates_are_in_order(a: (int, int, int), b: (int, int, int))
    requires
        is_date(a),
        is_date(b),
        day_number(a) < day_number(b),
    ensures
        earlier(a, b),
{
    months_added_up(a.0);
    months_added_up(b.0);
    if b.0 < a.0 {
        years_in_order(b.0, a.0);
    } else if a.0 == b.0 && b.1 < a.1 {
        months_in_order(a.0, b.1, a.1);
    }
}

/// The first day of the year 10000, in days behind 1970-01-01.
pub const FIVE_DIGIT_DAY: u64 = 2_932_897;

/// The first millisecond of the year 10000.
pub const FIVE_DIGIT_MILLIS: u64 = 253_402_300_800_000;

/// A day before the year 10000 has a year of at most four digits.
proof fn years_of_four_digits(days: int)
    requires
        0 <= days < FIVE_DIGIT_DAY,
    ensures
        1970 <= date_of(days).0 < 10000,
{
    days_have_dates(days);
    let date = date_of(days);
    months_added_up(date.0);
    assert(days_before_year(10000) - days_before_year(1970) == 2_932_897);
    if date.0 > 10000 {
        years_in_order(10000, date.0);
    }
}

/// Two texts of one length that are one text or in order, with one more part behind each.
proof fn one_more_part(a: Seq<char>, b: Seq<char>, x: Seq<char>, y: Seq<char>)
    requires
        a.len() == b.len(),
        x.len() == y.len(),
        before(a, b) || (a == b && (x == y || before(x, y))),
    ensures
        (a + x).len() == (b + y).len(),
        before(a + x, b + y) || a + x == b + y,
        before(a, b) || before(x, y) ==> before(a + x, b + y),
        a == b && x == y ==> a + x == b + y,
{
    if before(a, b) {
        order_is_settled_in_front(a, b, x, y);
    } else if before(x, y) {
        order_is_kept_behind(a, x, y);
    }
}

/// Two numbers padded alike are one text or in order, as the numbers are.
proof fn padded_alike(a: nat, b: nat, width: nat)
    requires
        1 <= width,
        a < limit(width),
        b < limit(width),
    ensures
        padded(a, width).len() == width,
        padded(b, width).len() == width,
        a < b ==> before(padded(a, width), padded(b, width)),
        a == b ==> padded(a, width) == padded(b, width),
{
    padded_fills(a, width);
    padded_fills(b, width);
    if a < b {
        padded_in_order(a, b, width);
    }
}

/// Whether a time of day lies before another: its hour, its minute, its second and its millisecond
/// say so, in that order.
pub open spec fn sooner(a: (nat, nat, nat, nat), b: (nat, nat, nat, nat)) -> bool {
    a.0 < b.0 || (a.0 == b.0 && (a.1 < b.1 || (a.1 == b.1 && (a.2 < b.2 || (a.2 == b.2 && a.3
        < b.3)))))
}

/// Before the year 10000 a date and a time of day fill 24 characters, and the earlier one comes
/// first in the order of texts.
pub proof fn stamps_are_in_order(
    a: (int, int, int),
    at: (nat, nat, nat, nat),
    b: (int, int, int),
    bt: (nat, nat, nat, nat),
)
    requires
        is_date(a),
        is_date(b),
        0 <= a.0 < 10000,
        0 <= b.0 < 10000,
        at.0 < 24 && at.1 < 60 && at.2 < 60 && at.3 < 1000,
        bt.0 < 24 && bt.1 < 60 && bt.2 < 60 && bt.3 < 1000,
        earlier(a, b) || (a == b && sooner(at, bt)),
    ensures
        stamp(a, at.0, at.1, at.2, at.3).len() == 24,
        stamp(b, bt.0, bt.1, bt.2, bt.3).len() == 24,
        before(stamp(a, at.0, at.1, at.2, at.3), stamp(b, bt.0, bt.1, bt.2, bt.3)),
{
    reveal_with_fuel(limit, 6);
    assert(limit(2) == 100 && limit(3) == 1000 && limit(4) == 10000);
    padded_alike(a.0 as nat, b.0 as nat, 4);
    padded_alike(a.1 as nat, b.1 as nat, 2);
    padded_alike(a.2 as nat, b.2 as nat, 2);
    padded_alike(at.0, bt.0, 2);
    padded_alike(at.1, bt.1, 2);
    padded_alike(at.2, bt.2, 2);
    padded_alike(at.3, bt.3, 3);
    let (a1, b1) = (padded(a.0 as nat, 4), padded(b.0 as nat, 4));
    let (a2, b2) = (a1 + seq!['-'], b1 + seq!['-']);
    let (a3, b3) = (a2 + padded(a.1 as nat, 2), b2 + padded(b.1 as nat, 2));
    let (a4, b4) = (a3 + seq!['-'], b3 + seq!['-']);
    let (a5, b5) = (a4 + padded(a.2 as nat, 2), b4 + padded(b.2 as nat, 2));
    let (a6, b6) = (a5 + seq!['T'], b5 + seq!['T']);
    let (a7, b7) = (a6 + padded(at.0, 2), b6 + padded(bt.0, 2));
    let (a8, b8) = (a7 + seq![':'], b7 + seq![':']);
    let (a9, b9) = (a8 + padded(at.1, 2), b8 + padded(bt.1, 2));
    let (a10, b10) = (a9 + seq![':'], b9 + seq![':']);
    let (a11, b11) = (a10 + padded(at.2, 2), b10 + padded(bt.2, 2));
    let (a12, b12) = (a11 + seq!['.'], b11 + seq!['.']);
    let (a13, b13) = (a12 + padded(at.3, 3), b12 + padded(bt.3, 3));
    one_more_part(a1, b1, seq!['-'], seq!['-']);
    one_more_part(a2, b2, padded(a.1 as nat, 2), padded(b.1 as nat, 2));
    one_more_part(a3, b3, seq!['-'], seq!['-']);
    one_more_part(a4, b4, padded(a.2 as nat, 2), padded(b.2 as nat, 2));
    one_more_part(a5, b5, seq!['T'], seq!['T']);
    one_more_part(a6, b6, padded(at.0, 2), padded(bt.0, 2));
    one_more_part(a7, b7, seq![':'], seq![':']);
    one_more_part(a8, b8, padded(at.1, 2), padded(bt.1, 2));
    one_more_part(a9, b9, seq![':'], seq![':']);
    one_more_part(a10, b10, padded(at.2, 2), padded(bt.2, 2));
    one_more_part(a11, b11, seq!['.'], seq!['.']);
    one_more_part(a12, b12, padded(at.3, 3), padded(bt.3, 3));
    one_more_part(a13, b13, seq!['Z'], seq!['Z']);
}

/// Two instants before the year 10000 are rendered in 24 characters each, and the order of their
/// texts is the order of time.
pub proof fn text_order_is_time_order(a: u64, b: u64)
    requires
        a < b < FIVE_DIGIT_MILLIS,
    ensures
        instant_text(a as nat).len() == 24,
        instant_text(b as nat).len() == 24,
        before(instant_text(a as nat), instant_text(b as nat)),
{
    let (sa, sb) = (a as nat / 1000, b as nat / 1000);
    let (da, db) = (sa as int / 86400, sb as int / 86400);
    let (ca, cb) = (sa % 86400, sb % 86400);
    days_have_dates(da);
    days_have_dates(db);
    years_of_four_digits(da);
    years_of_four_digits(db);
    let at = (ca / 3600, (ca % 3600) / 60, ca % 60, a as nat % 1000);
    let bt = (cb / 3600, (cb % 3600) / 60, cb % 60, b as nat % 1000);
    if da < db {
        dates_are_in_order(date_of(da), date_of(db));
    } else {
        assert(da == db);
        times_in_order(ca, a as nat % 1000, cb, b as nat % 1000);
    }
    stamps_are_in_order(date_of(da), at, date_of(db), bt);
}

/// Later seconds of a day have a later time of day.
#[verifier::spinoff_prover]
proof fn times_in_order(a: nat, am: nat, b: nat, bm: nat)
    requires
        a < b || (a == b && am < bm),
    ensures
        sooner(
            (a / 3600, (a % 3600) / 60, a % 60, am),
            (b / 3600, (b % 3600) / 60, b % 60, bm),
        ),
{
    assert(a == 3600 * (a / 3600) + 60 * ((a % 3600) / 60) + a % 60);
    assert(b == 3600 * (b / 3600) + 60 * ((b % 3600) / 60) + b % 60);
}

}
