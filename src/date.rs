use vstd::prelude::*;

verus! {

/// Earliest year a `Date` may carry.
pub const MIN_YEAR: i32 = 1;

/// Latest year a `Date` may carry.
pub const MAX_YEAR: i32 = 9999;

/// Months of the Gregorian calendar.
#[derive(Clone, Copy, Debug, PartialEq, Eq, Structural)]
pub enum Month {
    January,
    February,
    March,
    April,
    May,
    June,
    July,
    August,
    September,
    October,
    November,
    December,
}

impl Month {
    /// Position of the month in the year, January being 1.
    pub open spec fn index(self) -> int {
        match self {
            Month::January => 1,
            Month::February => 2,
            Month::March => 3,
            Month::April => 4,
            Month::May => 5,
            Month::June => 6,
            Month::July => 7,
            Month::August => 8,
            Month::September => 9,
            Month::October => 10,
            Month::November => 11,
            Month::December => 12,
        }
    }

    pub fn number(&self) -> (r: u8)
        ensures
            r as int == self.index(),
            1 <= r <= 12,
    {
        match self {
            Month::January => 1,
            Month::February => 2,
            Month::March => 3,
            Month::April => 4,
            Month::May => 5,
            Month::June => 6,
            Month::July => 7,
            Month::August => 8,
            Month::September => 9,
            Month::October => 10,
            Month::November => 11,
            Month::December => 12,
        }
    }
}

pub open spec fn is_leap_year_spec(year: int) -> bool {
    (year % 4 == 0 && year % 100 != 0) || year % 400 == 0
}

pub open spec fn days_in_month_spec(year: int, month: int) -> int {
    if month == 2 {
        if is_leap_year_spec(year) { 29 } else { 28 }
    } else if month == 4 || month == 6 || month == 9 || month == 11 {
        30
    } else {
        31
    }
}

/// Whether `year` is a Gregorian leap year.
pub fn is_leap_year(year: i32) -> (r: bool)
    requires
        0 <= year,
    ensures
        r == is_leap_year_spec(year as int),
{
    let y = year as u32;
    (y % 4 == 0 && y % 100 != 0) || y % 400 == 0
}

/// Number of days in the given month (1 to 12) of the given year.
pub fn days_in_month(year: i32, month: u8) -> (r: u8)
    requires
        0 <= year,
        1 <= month <= 12,
    ensures
        r as int == days_in_month_spec(year as int, month as int),
        28 <= r <= 31,
{
    if month == 2 {
        if is_leap_year(year) { 29 } else { 28 }
    } else if month == 4 || month == 6 || month == 9 || month == 11 {
        30
    } else {
        31
    }
}

/// A calendar day. Dates are ordered by year, then month, then day.
#[derive(Clone, Copy, Debug, PartialEq, Eq, Structural)]
pub struct Date {
    pub year: i32,
    pub month: u8,
    pub day: u8,
}

impl Date {
    /// The date names an existing day within the supported years.
    pub open spec fn valid(self) -> bool {
        &&& MIN_YEAR <= self.year <= MAX_YEAR
        &&& 1 <= self.month <= 12
        &&& 1 <= self.day <= days_in_month_spec(self.year as int, self.month as int)
    }

    /// Calendar order: `self` falls strictly before `other`.
    pub open spec fn precedes(self, other: Date) -> bool {
        ||| self.year < other.year
        ||| (self.year == other.year && self.month < other.month)
        ||| (self.year == other.year && self.month == other.month && self.day < other.day)
    }

    pub fn new(day: u8, month: Month, year: i32) -> (r: Date)
        requires
            MIN_YEAR <= year <= MAX_YEAR,
            1 <= day <= days_in_month_spec(year as int, month.index()),
        ensures
            r.valid(),
            r.year == year,
            r.month as int == month.index(),
            r.day == day,
    {
        Date { year, month: month.number(), day }
    }

    pub fn year(&self) -> (r: i32)
        ensures
            r == self.year,
    {
        self.year
    }

    /// Whether `self` falls strictly before `other`.
    pub fn is_before(&self, other: &Date) -> (r: bool)
        ensures
            r == self.precedes(*other),
    {
        self.year < other.year || (self.year == other.year && (self.month < other.month || (
        self.month == other.month && self.day < other.day)))
    }

    /// Whether `self` and `other` are the same day.
    pub fn same_day(&self, other: &Date) -> (r: bool)
        ensures
            r == (*self == *other),
    {
        self.year == other.year && self.month == other.month && self.day == other.day
    }
}

/// Calendar order is a strict total order.
pub proof fn lemma_precedes_total(a: Date, b: Date)
    ensures
        !(a.precedes(b) && b.precedes(a)),
        !a.precedes(a),
        a.precedes(b) || b.precedes(a) || a == b,
{
}

/// Calendar order is transitive.
pub proof fn lemma_precedes_transitive(a: Date, b: Date, c: Date)
    requires
        a.precedes(b),
        b.precedes(c),
    ensures
        a.precedes(c),
{
}

} // verus!
