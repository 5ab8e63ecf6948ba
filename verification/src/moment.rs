//! Instants of UTC, the Gregorian calendar and the textual forms of both.

use chrono::{DateTime, Datelike, NaiveDate, TimeDelta, Utc};
use vstd::prelude::*;

use crate::text;

verus! {

/// The first second that an instant can lie in, counted from 1970-01-01T00:00:00Z.
pub const MIN_SECS: i64 = -8334601228800;

/// The last second that an instant can lie in.
pub const MAX_SECS: i64 = 8210266876799;

/// The first year of a date.
pub const MIN_YEAR: i32 = -262143;

/// The last year of a date.
pub const MAX_YEAR: i32 = 262142;

pub const NANOS_PER_SEC: u32 = 1_000_000_000;

pub const SECS_PER_DAY: i64 = 86_400;

/// An instant of UTC: a second counted from 1970-01-01T00:00:00Z, and nanoseconds into it.
/// A leap second is the second `:59` with `nanos` at a thousand million or more.
#[derive(Clone, Copy, Debug, PartialEq, Eq, Structural)]
pub struct Moment {
    pub secs: i64,
    pub nanos: u32,
}

/// A day of the Gregorian calendar.
#[derive(Clone, Copy, Debug, PartialEq, Eq, Structural)]
pub struct CivilDate {
    pub year: i32,
    pub month: u32,
    pub day: u32,
}

/// Whether `year` has a 29th of February.
pub open spec fn leap_year(year: int) -> bool {
    year % 4 == 0 && (year % 100 != 0 || year % 400 == 0)
}

/// How many days `month` of `year` has.
pub open spec fn month_length(year: int, month: int) -> int {
    if month == 2 {
        if leap_year(year) {
            29
        } else {
            28
        }
    } else if month == 4 || month == 6 || month == 9 || month == 11 {
        30
    } else {
        31
    }
}

/// How many days lie between 0001-01-01 and the first day of `year`.
pub open spec fn days_before_year(year: int) -> int {
    365 * (year - 1) + (year - 1) / 4 - (year - 1) / 100 + (year - 1) / 400
}

/// How many days of `year` lie before the first day of `month`.
pub open spec fn days_before_month(year: int, month: int) -> int
    decreases month,
{
    if month <= 1 {
        0
    } else {
        days_before_month(year, month - 1) + month_length(year, month - 1)
    }
}

/// Whether there is such a day.
pub open spec fn valid_date(year: int, month: int, day: int) -> bool {
    1 <= month <= 12 && 1 <= day <= month_length(year, month)
}

/// The number of a day, counted from 1970-01-01.
pub open spec fn day_number(year: int, month: int, day: int) -> int {
    days_before_year(year) + days_before_month(year, month) + day - 1 - 719162
}

/// The day with the given number, as year, month and day.
pub open spec fn civil_date(number: int) -> (int, int, int) {
    choose|date: (int, int, int)|
        #![trigger day_number(date.0, date.1, date.2)]
        valid_date(date.0, date.1, date.2) && day_number(date.0, date.1, date.2) == number
}

proof fn lemma_step(n: int, d: int)
    requires
        d == 4 || d == 100 || d == 400,
    ensures
        n / d - (n - 1) / d == if n % d == 0 {
            1int
        } else {
            0int
        },
{
}

proof fn lemma_year_length(year: int)
    ensures
        days_before_year(year + 1) == days_before_year(year) + 365 + (if leap_year(year) {
            1int
        } else {
            0int
        }),
{
    lemma_step(year, 4);
    lemma_step(year, 100);
    lemma_step(year, 400);
}

proof fn lemma_months_of_year(year: int)
    ensures
        days_before_month(year, 12) + 31 == 365 + (if leap_year(year) {
            1int
        } else {
            0int
        }),
{
    assert(days_before_month(year, 1) == 0);
    assert(days_before_month(year, 2) == 31);
    let leap_day = month_length(year, 2) - 28;
    assert(days_before_month(year, 3) == 59 + leap_day);
    assert(days_before_month(year, 4) == 90 + leap_day);
    assert(days_before_month(year, 5) == 120 + leap_day);
    assert(days_before_month(year, 6) == 151 + leap_day);
    assert(days_before_month(year, 7) == 181 + leap_day);
    assert(days_before_month(year, 8) == 212 + leap_day);
    assert(days_before_month(year, 9) == 243 + leap_day);
    assert(days_before_month(year, 10) == 273 + leap_day);
    assert(days_before_month(year, 11) == 304 + leap_day);
    assert(days_before_month(year, 12) == 334 + leap_day);
}

proof fn lemma_years_in_order(first: int, second: int)
    requires
        first < second,
    ensures
        days_before_year(first + 1) <= days_before_year(second),
    decreases second - first,
{
    if first + 1 < second {
        lemma_year_length(second - 1);
        lemma_years_in_order(first, second - 1);
    }
}

proof fn lemma_months_in_order(year: int, first: int, second: int)
    requires
        1 <= first < second <= 13,
    ensures
        days_before_month(year, first) + month_length(year, first) <= days_before_month(
            year,
            second,
        ),
    decreases second - first,
{
    if first + 1 < second {
        lemma_months_in_order(year, first, second - 1);
    }
}

proof fn lemma_day_in_year(year: int, month: int, day: int)
    requires
        valid_date(year, month, day),
    ensures
        days_before_year(year) <= day_number(year, month, day) + 719162 < days_before_year(
            year + 1,
        ),
{
    lemma_year_length(year);
    lemma_months_of_year(year);
    if month < 12 {
        lemma_months_in_order(year, month, 12);
    }
    if month > 1 {
        lemma_months_in_order(year, 1, month);
    }
}

/// Different days have different numbers.
pub proof fn law_day_numbers_differ(a: (int, int, int), b: (int, int, int))
    requires
        valid_date(a.0, a.1, a.2),
        valid_date(b.0, b.1, b.2),
        day_number(a.0, a.1, a.2) == day_number(b.0, b.1, b.2),
    ensures
        a == b,
{
    lemma_day_in_year(a.0, a.1, a.2);
    lemma_day_in_year(b.0, b.1, b.2);
    if a.0 < b.0 {
        lemma_years_in_order(a.0, b.0);
    }
    if b.0 < a.0 {
        lemma_years_in_order(b.0, a.0);
    }
    if a.1 < b.1 {
        lemma_months_in_order(a.0, a.1, b.1);
    }
    if b.1 < a.1 {
        lemma_months_in_order(a.0, b.1, a.1);
    }
}

/// The day after the last of a month is the first of the next.
pub proof fn law_month_follows_month(year: int, month: int)
    requires
        1 <= month <= 12,
    ensures
        month < 12 ==> day_number(year, month, month_length(year, month)) + 1 == day_number(
            year,
            month + 1,
            1,
        ),
        month == 12 ==> day_number(year, 12, 31) + 1 == day_number(year + 1, 1, 1),
{
    lemma_year_length(year);
    lemma_months_of_year(year);
    reveal_with_fuel(days_before_month, 2);
}

/// `n` in decimal notation, filled up with zeros on the left to `width` digits.
pub open spec fn zero_padded(n: nat, width: nat) -> Seq<char> {
    Seq::new(
        if text::decimal(n).len() < width {
            (width - text::decimal(n).len()) as nat
        } else {
            0
        },
        |i: int| '0',
    ) + text::decimal(n)
}

/// A year: four digits, or a sign and at least four where it has more or lies before year 0.
pub open spec fn year_chars(year: int) -> Seq<char> {
    if year < 0 {
        seq!['-'] + zero_padded((-year) as nat, 4)
    } else if year > 9999 {
        seq!['+'] + zero_padded(year as nat, 4)
    } else {
        zero_padded(year as nat, 4)
    }
}

/// A month of a year, as `2026-02`.
pub open spec fn month_label(year: int, month: int) -> Seq<char> {
    year_chars(year) + seq!['-'] + zero_padded(month as nat, 2)
}

/// A fraction of a second: none, or a point and as many groups of three digits as it takes.
pub open spec fn fraction_chars(nanos: int) -> Seq<char> {
    if nanos == 0 {
        seq![]
    } else if nanos % 1_000_000 == 0 {
        seq!['.'] + zero_padded((nanos / 1_000_000) as nat, 3)
    } else if nanos % 1_000 == 0 {
        seq!['.'] + zero_padded((nanos / 1_000) as nat, 6)
    } else {
        seq!['.'] + zero_padded(nanos as nat, 9)
    }
}

/// An instant of UTC in the notation of RFC 3339, as `2026-02-28T23:59:59.500+00:00`.
pub open spec fn rfc3339(secs: int, nanos: int) -> Seq<char> {
    let date = civil_date(secs / SECS_PER_DAY as int);
    let clock = secs % SECS_PER_DAY as int;
    let leap = nanos >= NANOS_PER_SEC;
    let second = if leap {
        clock % 60 + 1
    } else {
        clock % 60
    };
    let fraction = if leap {
        nanos - NANOS_PER_SEC
    } else {
        nanos
    };
    year_chars(date.0) + seq!['-'] + zero_padded(date.1 as nat, 2) + seq!['-'] + zero_padded(
        date.2 as nat,
        2,
    ) + seq!['T'] + zero_padded((clock / 3600) as nat, 2) + seq![':'] + zero_padded(
        (clock / 60 % 60) as nat,
        2,
    ) + seq![':'] + zero_padded(second as nat, 2) + fraction_chars(fraction) + "+00:00"@
}

/// The instant that a text in the notation of RFC 3339 names, as its second and the nanoseconds
/// into it, or `None` for another text: what chrono's `DateTime::parse_from_rfc3339` reads.
pub uninterp spec fn rfc3339_moment(text: Seq<char>) -> Option<(i64, u32)>;

/// The whole seconds from one instant to another, towards zero. A leap second at either end
/// counts where the time of day has moved on from it, or not yet reached it.
pub open spec fn seconds_between(later: Moment, earlier: Moment) -> int {
    let later_clock = later.secs as int % SECS_PER_DAY as int;
    let earlier_clock = earlier.secs as int % SECS_PER_DAY as int;
    let leap: int = if later_clock > earlier_clock && earlier.nanos >= NANOS_PER_SEC {
        1
    } else if later_clock < earlier_clock && later.nanos >= NANOS_PER_SEC {
        -1
    } else {
        0
    };
    let nanos = (later.secs - earlier.secs + leap) * NANOS_PER_SEC + later.nanos - earlier.nanos;
    if nanos >= 0 {
        nanos / NANOS_PER_SEC as int
    } else {
        -(-nanos / NANOS_PER_SEC as int)
    }
}

impl Moment {
    /// Whether the instant lies in the range of the calendar and its nanoseconds in its second.
    pub open spec fn wf(&self) -> bool {
        &&& MIN_SECS <= self.secs <= MAX_SECS
        &&& self.nanos < NANOS_PER_SEC || (self.nanos < 2 * NANOS_PER_SEC && self.secs % 60 == 59)
    }

    /// Whether the instant lies in no leap second.
    pub open spec fn ordinary(&self) -> bool {
        self.nanos < NANOS_PER_SEC
    }

    /// Whether this instant comes before `other`.
    pub open spec fn precedes(&self, other: &Moment) -> bool {
        self.secs < other.secs || (self.secs == other.secs && self.nanos < other.nanos)
    }

    /// Whether RFC 3339 can write the year, which takes four digits.
    pub open spec fn four_digit_year(&self) -> bool {
        -62167219200 <= self.secs <= 253402300799
    }

    /// The instant with these parts, where there is one.
    pub fn new(secs: i64, nanos: u32) -> (r: Option<Moment>)
        ensures
            r is Some <==> (Moment { secs, nanos }).wf(),
            r matches Some(m) ==> m == (Moment { secs, nanos }),
    {
        if secs < MIN_SECS || secs > MAX_SECS {
            return None;
        }
        let offset: i64 = secs - MIN_SECS;
        assert(MIN_SECS as int % 60 == 0);
        assert(offset % 60 == secs as int % 60);
        if nanos < NANOS_PER_SEC || (nanos < 2 * NANOS_PER_SEC && offset % 60 == 59) {
            Some(Moment { secs, nanos })
        } else {
            None
        }
    }

    /// The present instant, by the machine's clock.
    pub fn now() -> (r: Moment)
        ensures
            r.wf(),
            r.ordinary(),
            r.secs >= 0,
    {
        let (secs, nanos) = utc_now();
        Moment { secs, nanos }
    }

    /// Whether this instant comes before `other`.
    pub fn is_before(&self, other: &Moment) -> (r: bool)
        ensures
            r == self.precedes(other),
    {
        self.secs < other.secs || (self.secs == other.secs && self.nanos < other.nanos)
    }

    /// The instant in the notation of RFC 3339.
    pub fn to_rfc3339(&self) -> (r: String)
        requires
            self.wf(),
        ensures
            r@ == rfc3339(self.secs as int, self.nanos as int),
            self.four_digit_year() ==> rfc3339_moment(r@) == Some((self.secs, self.nanos)),
    {
        format_rfc3339(self)
    }

    /// Reads an instant in the notation of RFC 3339.
    pub fn parse_rfc3339(text: &str) -> (r: Option<Moment>)
        ensures
            r == moment_named(text@),
            r matches Some(m) ==> m.wf(),
    {
        match read_rfc3339(text) {
            Some((secs, nanos)) => Some(Moment { secs, nanos }),
            None => None,
        }
    }
}

/// The instant that a text in the notation of RFC 3339 names, if it names one.
pub open spec fn moment_named(text: Seq<char>) -> Option<Moment> {
    match rfc3339_moment(text) {
        Some((secs, nanos)) => Some(Moment { secs, nanos }),
        None => None,
    }
}

/// chrono's `Utc::now`: what the machine's clock shows, from the start of 1970 on and never in a
/// leap second. It panics where the clock stands before 1970.
#[verifier::external_body]
fn utc_now() -> (r: (i64, u32))
    ensures
        0 <= r.0 <= MAX_SECS,
        r.1 < NANOS_PER_SEC,
{
    let now = Utc::now();
    (now.timestamp(), now.timestamp_subsec_nanos())
}

/// chrono's `DateTime::to_rfc3339` on an instant of UTC. Within the years that RFC 3339 can
/// write, `DateTime::parse_from_rfc3339` reads the same instant back.
#[verifier::external_body]
fn format_rfc3339(m: &Moment) -> (r: String)
    requires
        m.wf(),
    ensures
        r@ == rfc3339(m.secs as int, m.nanos as int),
        m.four_digit_year() ==> rfc3339_moment(r@) == Some((m.secs, m.nanos)),
{
    DateTime::<Utc>::from_timestamp(m.secs, m.nanos).unwrap().to_rfc3339()
}

/// chrono's `DateTime::parse_from_rfc3339`, its result taken to UTC. An instant that it reads
/// lies in chrono's range.
#[verifier::external_body]
fn read_rfc3339(text: &str) -> (r: Option<(i64, u32)>)
    ensures
        r == rfc3339_moment(text@),
        r matches Some(m) ==> (Moment { secs: m.0, nanos: m.1 }).wf(),
{
    match DateTime::parse_from_rfc3339(text) {
        Ok(t) => Some((t.timestamp(), t.timestamp_subsec_nanos())),
        Err(_) => None,
    }
}

/// chrono's `year`, `month` and `day` of an instant of UTC: the day of the proleptic Gregorian
/// calendar that it lies in.
#[verifier::external_body]
pub(crate) fn utc_date(m: &Moment) -> (r: CivilDate)
    requires
        m.wf(),
    ensures
        valid_date(r.year as int, r.month as int, r.day as int),
        day_number(r.year as int, r.month as int, r.day as int) == m.secs as int
            / SECS_PER_DAY as int,
        MIN_YEAR <= r.year <= MAX_YEAR,
{
    let t = DateTime::<Utc>::from_timestamp(m.secs, m.nanos).unwrap();
    CivilDate { year: t.year(), month: t.month(), day: t.day() }
}

/// chrono's `DateTime::format` on an instant of UTC, with the pattern `%Y-%m` alone: it gives the
/// year and the month that the instant lies in.
#[verifier::external_body]
fn format_utc(m: &Moment, pattern: &str) -> (r: String)
    requires
        m.wf(),
        pattern@ == "%Y-%m"@,
    ensures
        r@ == month_label(
            civil_date(m.secs as int / SECS_PER_DAY as int).0,
            civil_date(m.secs as int / SECS_PER_DAY as int).1,
        ),
{
    DateTime::<Utc>::from_timestamp(m.secs, m.nanos).unwrap().format(pattern).to_string()
}

/// chrono's `NaiveDate::pred_opt`, on the date that `NaiveDate::from_ymd_opt` makes: the day
/// before, for every day from `MIN_YEAR` to `MAX_YEAR` but the very first.
#[verifier::external_body]
pub(crate) fn day_before(year: i32, month: u32, day: u32) -> (r: Option<CivilDate>)
    ensures
        r is Some <==> (MIN_YEAR <= year <= MAX_YEAR && valid_date(
            year as int,
            month as int,
            day as int,
        ) && !(year == MIN_YEAR && month == 1 && day == 1)),
        r matches Some(d) ==> valid_date(d.year as int, d.month as int, d.day as int)
            && day_number(d.year as int, d.month as int, d.day as int) == day_number(
            year as int,
            month as int,
            day as int,
        ) - 1,
{
    let d = NaiveDate::from_ymd_opt(year, month, day)?.pred_opt()?;
    Some(CivilDate { year: d.year(), month: d.month(), day: d.day() })
}

/// chrono's `DateTime::checked_add_signed` with a number of seconds: away from leap seconds it
/// counts every second alike, and it has no result beyond the range of the calendar.
#[verifier::external_body]
pub(crate) fn shifted(m: &Moment, seconds: i64) -> (r: Option<Moment>)
    requires
        m.wf(),
        m.ordinary(),
    ensures
        r is Some <==> MIN_SECS <= m.secs + seconds <= MAX_SECS,
        r matches Some(t) ==> t.secs == m.secs + seconds && t.nanos == m.nanos,
{
    let start = DateTime::<Utc>::from_timestamp(m.secs, m.nanos).unwrap();
    let end = start.checked_add_signed(TimeDelta::try_seconds(seconds)?)?;
    Some(Moment { secs: end.timestamp(), nanos: end.timestamp_subsec_nanos() })
}

/// chrono's difference of two instants of UTC, as `TimeDelta::num_seconds` gives it.
#[verifier::external_body]
pub(crate) fn num_seconds(later: &Moment, earlier: &Moment) -> (r: i64)
    requires
        later.wf(),
        earlier.wf(),
    ensures
        r == seconds_between(*later, *earlier),
{
    let a = DateTime::<Utc>::from_timestamp(later.secs, later.nanos).unwrap();
    let b = DateTime::<Utc>::from_timestamp(earlier.secs, earlier.nanos).unwrap();
    (a - b).num_seconds()
}

/// The month of `m`, as `2026-02`.
pub fn year_month(m: &Moment) -> (r: String)
    requires
        m.wf(),
    ensures
        r@ == month_of(*m),
{
    format_utc(m, "%Y-%m")
}

/// The label of the month that `m` lies in.
pub open spec fn month_of(m: Moment) -> Seq<char> {
    let date = civil_date(m.secs as int / SECS_PER_DAY as int);
    month_label(date.0, date.1)
}

/// A day's number picks it out of the calendar.
pub proof fn law_civil_date(year: int, month: int, day: int)
    requires
        valid_date(year, month, day),
    ensures
        civil_date(day_number(year, month, day)) == (year, month, day),
{
    let date = (year, month, day);
    assert(valid_date(date.0, date.1, date.2) && day_number(date.0, date.1, date.2) == day_number(
        year,
        month,
        day,
    ));
    law_day_numbers_differ(civil_date(day_number(year, month, day)), date);
}

proof fn lemma_leading_zeros(k: nat, s: Seq<char>)
    ensures
        text::digits_value(Seq::new(k, |i: int| '0') + s) == text::digits_value(s),
    decreases s.len(), k,
{
    let zeros = Seq::new(k, |i: int| '0');
    if s.len() > 0 {
        lemma_leading_zeros(k, s.drop_last());
        assert((zeros + s).drop_last() =~= zeros + s.drop_last());
    } else if k > 0 {
        let fewer = Seq::new((k - 1) as nat, |i: int| '0');
        lemma_leading_zeros((k - 1) as nat, s);
        assert((zeros + s).drop_last() =~= fewer + s);
    } else {
        assert(zeros + s =~= s);
    }
}

proof fn lemma_zero_padded(n: nat, width: nat)
    ensures
        text::digits_value(zero_padded(n, width)) == n,
        zero_padded(n, width).len() >= 1,
        zero_padded(n, width).len() >= width,
        n < 100 && width == 2 ==> zero_padded(n, width).len() == 2,
        forall|i: int|
            0 <= i < zero_padded(n, width).len() ==> '0' <= #[trigger] zero_padded(n, width)[i]
                <= '9',
{
    text::law_decimal(n);
    let k: nat = if text::decimal(n).len() < width {
        (width - text::decimal(n).len()) as nat
    } else {
        0
    };
    lemma_leading_zeros(k, text::decimal(n));
}

proof fn lemma_year_chars(a: int, b: int)
    requires
        year_chars(a) == year_chars(b),
    ensures
        a == b,
{
    let x: nat = if a < 0 {
        (-a) as nat
    } else {
        a as nat
    };
    let y: nat = if b < 0 {
        (-b) as nat
    } else {
        b as nat
    };
    lemma_zero_padded(x, 4);
    lemma_zero_padded(y, 4);
    if a < 0 || a > 9999 {
        assert(year_chars(a).drop_first() =~= zero_padded(x, 4));
    }
    if b < 0 || b > 9999 {
        assert(year_chars(b).drop_first() =~= zero_padded(y, 4));
    }
    assert('0' <= zero_padded(x, 4)[0] <= '9');
    assert('0' <= zero_padded(y, 4)[0] <= '9');
    assert(year_chars(a)[0] == year_chars(b)[0]);
    assert(x == y);
    assert(a < 0 <==> year_chars(a)[0] == '-');
    assert(b < 0 <==> year_chars(b)[0] == '-');
}

/// Different months have different labels.
pub proof fn law_month_labels_differ(year_a: int, month_a: int, year_b: int, month_b: int)
    requires
        1 <= month_a <= 12,
        1 <= month_b <= 12,
        month_label(year_a, month_a) == month_label(year_b, month_b),
    ensures
        year_a == year_b,
        month_a == month_b,
{
    let a = month_label(year_a, month_a);
    let b = month_label(year_b, month_b);
    lemma_zero_padded(month_a as nat, 2);
    lemma_zero_padded(month_b as nat, 2);
    assert(a.take(a.len() - 3) =~= year_chars(year_a));
    assert(b.take(b.len() - 3) =~= year_chars(year_b));
    assert(a.skip(a.len() - 2) =~= zero_padded(month_a as nat, 2));
    assert(b.skip(b.len() - 2) =~= zero_padded(month_b as nat, 2));
    lemma_year_chars(year_a, year_b);
}

proof fn lemma_date_exists(number: int)
    ensures
        exists|date: (int, int, int)|
            #![trigger day_number(date.0, date.1, date.2)]
            valid_date(date.0, date.1, date.2) && day_number(date.0, date.1, date.2) == number,
    decreases
            if number < 0 {
                -number
            } else {
                number
            },
{
    if number == 0 {
        let epoch = (1970int, 1int, 1int);
        assert(valid_date(epoch.0, epoch.1, epoch.2));
        assert(days_before_month(1970, 1) == 0);
        assert(day_number(epoch.0, epoch.1, epoch.2) == 0);
    } else if number > 0 {
        lemma_date_exists(number - 1);
        let (y, m, d) = choose|date: (int, int, int)|
            #![trigger day_number(date.0, date.1, date.2)]
            valid_date(date.0, date.1, date.2) && day_number(date.0, date.1, date.2) == number - 1;
        law_month_follows_month(y, m);
        let next = if d < month_length(y, m) {
            (y, m, d + 1)
        } else if m < 12 {
            (y, m + 1, 1int)
        } else {
            (y + 1, 1int, 1int)
        };
        assert(valid_date(next.0, next.1, next.2));
        assert(day_number(next.0, next.1, next.2) == number);
    } else {
        lemma_date_exists(number + 1);
        let (y, m, d) = choose|date: (int, int, int)|
            #![trigger day_number(date.0, date.1, date.2)]
            valid_date(date.0, date.1, date.2) && day_number(date.0, date.1, date.2) == number + 1;
        let previous = if d > 1 {
            (y, m, d - 1)
        } else if m > 1 {
            (y, m - 1, month_length(y, m - 1))
        } else {
            (y - 1, 12int, 31int)
        };
        if m > 1 {
            law_month_follows_month(y, m - 1);
        } else {
            law_month_follows_month(y - 1, 12);
        }
        assert(valid_date(previous.0, previous.1, previous.2));
        assert(day_number(previous.0, previous.1, previous.2) == number);
    }
}

/// Every number of a day is the number of a day of the calendar.
pub proof fn law_every_day_has_a_date(number: int)
    ensures
        valid_date(civil_date(number).0, civil_date(number).1, civil_date(number).2),
        day_number(civil_date(number).0, civil_date(number).1, civil_date(number).2) == number,
{
    lemma_date_exists(number);
}

} // verus!
