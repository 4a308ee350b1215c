use vstd::prelude::*;
use crate::date::{Date, Month, MIN_YEAR, MAX_YEAR};

verus! {

/// Why a curve query was refused.
#[derive(Clone, Copy, Debug, PartialEq, Eq, Structural)]
pub enum TermError {
    /// The date precedes the reference date, or lies beyond the latest date
    /// while extrapolation is off.
    OutOfRange,
    /// A jump's quote holds no valid value.
    InvalidQuote,
    /// Arguments outside the domain of a query: dates in the wrong order,
    /// a non-positive jump multiplier or compound factor.
    DomainError,
    /// The reference date has not been set.
    Unresolved,
}

/// The interval over which a rate query inverts a compound factor.
#[derive(Clone, Copy, Debug, PartialEq, Eq, Structural)]
pub enum RateSpan {
    /// A zero-length interval at this date: the rate is the instantaneous
    /// one, approximated over a short fixed step.
    Instantaneous(Date),
    /// From the first date to the second, the first strictly before.
    Between(Date, Date),
}

/// Default anchors of `n` jumps: December 31 of successive years, the first
/// in `first_year`.
pub open spec fn year_end_dates(first_year: int, n: nat) -> Seq<Date> {
    Seq::new(n, |i: int| Date { year: (first_year + i) as i32, month: 12, day: 31 })
}

/// A yield curve: a reference date, a calendar and a day counter, a
/// discounting rule, and jumps, each a quote `Q` anchored to a date, whose
/// values multiply every discount factor past that date.
pub struct YieldTermStructure<C, D, Q, R> {
    calendar: C,
    reference_date: Option<Date>,
    day_counter: D,
    settlement_days: i64,
    max_date: Option<Date>,
    jumps: Vec<Q>,
    jump_dates: Vec<Date>,
    discount_impl: R,
}

impl<C, D, Q, R> YieldTermStructure<C, D, Q, R> {
    pub closed spec fn reference(&self) -> Option<Date> {
        self.reference_date
    }

    /// The latest date the curve answers for without extrapolation; `None`
    /// when it is unbounded.
    pub closed spec fn horizon(&self) -> Option<Date> {
        self.max_date
    }

    pub closed spec fn jump_date_seq(&self) -> Seq<Date> {
        self.jump_dates@
    }

    pub closed spec fn jump_seq(&self) -> Seq<Q> {
        self.jumps@
    }

    pub closed spec fn calendar_spec(&self) -> C {
        self.calendar
    }

    pub closed spec fn day_counter_spec(&self) -> D {
        self.day_counter
    }

    pub closed spec fn settlement_days_spec(&self) -> i64 {
        self.settlement_days
    }

    pub closed spec fn rule(&self) -> R {
        self.discount_impl
    }

    /// One anchor date per jump, and a horizon no earlier than the
    /// reference date.
    pub open spec fn wf(&self) -> bool {
        &&& self.jump_date_seq().len() == self.jump_seq().len()
        &&& match (self.reference(), self.horizon()) {
            (Some(r), Some(m)) => !m.precedes(r),
            _ => true,
        }
    }

    /// Everything a query reads besides the setup (calendar, day counter,
    /// settlement days) is the same in `self` and `other`.
    pub open spec fn same_content(&self, other: &Self) -> bool {
        &&& self.reference() == other.reference()
        &&& self.horizon() == other.horizon()
        &&& self.jump_date_seq() == other.jump_date_seq()
        &&& self.jump_seq() == other.jump_seq()
        &&& self.rule() == other.rule()
    }

    /// The error a query at `date` meets, if any.
    pub open spec fn range_error(&self, date: Date, extrapolate: bool) -> Option<TermError> {
        match self.reference() {
            None => Some(TermError::Unresolved),
            Some(r) => {
                let beyond = match self.horizon() {
                    Some(m) => m.precedes(date),
                    None => false,
                };
                if date.precedes(r) || (beyond && !extrapolate) {
                    Some(TermError::OutOfRange)
                } else {
                    None
                }
            },
        }
    }

    /// Jump `n` multiplies the discount factor at `date`: its anchor lies
    /// strictly after the reference date and strictly before `date`.
    pub open spec fn jump_applies(&self, n: int, date: Date) -> bool {
        &&& 0 <= n < self.jump_date_seq().len()
        &&& match self.reference() {
            Some(r) => r.precedes(self.jump_date_seq()[n]) && self.jump_date_seq()[n].precedes(
                date,
            ),
            None => false,
        }
    }

    /// What a zero-rate query at `date` inverts over.
    pub open spec fn zero_span(&self, date: Date, extrapolate: bool) -> Result<RateSpan, TermError> {
        match self.reference() {
            None => Err(TermError::Unresolved),
            Some(r) => if date == r {
                Ok(RateSpan::Instantaneous(r))
            } else {
                match self.range_error(date, extrapolate) {
                    Some(e) => Err(e),
                    None => Ok(RateSpan::Between(r, date)),
                }
            },
        }
    }

    /// What a forward-rate query from `d1` to `d2` inverts over.
    pub open spec fn forward_span(&self, d1: Date, d2: Date, extrapolate: bool) -> Result<
        RateSpan,
        TermError,
    > {
        if d1 == d2 {
            match self.range_error(d1, extrapolate) {
                Some(e) => Err(e),
                None => Ok(RateSpan::Instantaneous(d1)),
            }
        } else if d2.precedes(d1) {
            Err(TermError::DomainError)
        } else {
            match self.range_error(d1, extrapolate) {
                Some(e) => Err(e),
                None => match self.range_error(d2, extrapolate) {
                    Some(e) => Err(e),
                    None => Ok(RateSpan::Between(d1, d2)),
                },
            }
        }
    }
}

impl<C, D, Q, R> YieldTermStructure<C, D, Q, R> {
    /// Builds a curve. Where no anchor dates are given for the jumps, they
    /// fall on December 31 of successive years, from the reference year on.
    pub fn new(
        calendar: C,
        reference_date: Date,
        day_counter: D,
        settlement_days: i64,
        jumps: Vec<Q>,
        jump_dates: Vec<Date>,
        discount_impl: R,
    ) -> (r: Self)
        requires
            jump_dates@.len() == 0 || jump_dates@.len() == jumps@.len(),
            jump_dates@.len() == 0 ==> MIN_YEAR <= reference_date.year && reference_date.year
                + jumps@.len() <= MAX_YEAR + 1,
        ensures
            r.wf(),
            r.reference() == Some(reference_date),
            r.horizon() == None::<Date>,
            r.calendar_spec() == calendar,
            r.day_counter_spec() == day_counter,
            r.settlement_days_spec() == settlement_days,
            r.rule() == discount_impl,
            r.jump_seq() == jumps@,
            r.jump_date_seq() == if jump_dates@.len() == 0 {
                year_end_dates(reference_date.year as int, jumps@.len())
            } else {
                jump_dates@
            },
    {
        let mut yt = YieldTermStructure {
            calendar,
            reference_date: Some(reference_date),
            day_counter,
            settlement_days,
            max_date: None,
            jumps,
            jump_dates,
            discount_impl,
        };
        yt.set_jumps();
        yt
    }

    /// Gives each jump its default anchor date where none were supplied.
    fn set_jumps(&mut self)
        requires
            old(self).reference() is Some,
            old(self).jump_date_seq().len() == 0 || old(self).jump_date_seq().len()
                == old(self).jump_seq().len(),
            old(self).jump_date_seq().len() == 0 ==> MIN_YEAR <= old(self).reference()->0.year
                && old(self).reference()->0.year + old(self).jump_seq().len() <= MAX_YEAR + 1,
        ensures
            final(self).jump_date_seq().len() == final(self).jump_seq().len(),
            final(self).jump_date_seq() == if old(self).jump_date_seq().len() == 0 {
                year_end_dates(old(self).reference()->0.year as int, old(self).jump_seq().len())
            } else {
                old(self).jump_date_seq()
            },
            final(self).reference() == old(self).reference(),
            final(self).horizon() == old(self).horizon(),
            final(self).jump_seq() == old(self).jump_seq(),
            final(self).rule() == old(self).rule(),
            final(self).calendar_spec() == old(self).calendar_spec(),
            final(self).day_counter_spec() == old(self).day_counter_spec(),
            final(self).settlement_days_spec() == old(self).settlement_days_spec(),
    {
        if self.jump_dates.len() == 0 {
            let y: i32 = match self.reference_date {
                Some(d) => d.year,
                None => 0,
            };
            let n: usize = self.jumps.len();
            let mut dates: Vec<Date> = Vec::new();
            let mut i: usize = 0;
            while i < n
                invariant
                    i <= n,
                    MIN_YEAR <= y,
                    y + n <= MAX_YEAR + 1,
                    dates@ =~= year_end_dates(y as int, i as nat),
                decreases n - i,
            {
                let d = Date::new(31, Month::December, y + i as i32);
                dates.push(d);
                i += 1;
            }
            self.jump_dates = dates;
        }
    }
}

impl<C, D, Q, R> YieldTermStructure<C, D, Q, R> {
    pub fn set_calendar(&mut self, calendar: C)
        ensures
            final(self).calendar_spec() == calendar,
            final(self).same_content(old(self)),
            final(self).day_counter_spec() == old(self).day_counter_spec(),
            final(self).settlement_days_spec() == old(self).settlement_days_spec(),
    {
        self.calendar = calendar;
    }

    /// Moves the reference date. Jump anchors are dates, so nothing kept
    /// relative to the old reference date needs rebuilding.
    pub fn set_reference_date(&mut self, date: Date)
        requires
            old(self).wf(),
            match old(self).horizon() {
                Some(m) => !m.precedes(date),
                None => true,
            },
        ensures
            final(self).wf(),
            final(self).reference() == Some(date),
            final(self).horizon() == old(self).horizon(),
            final(self).jump_date_seq() == old(self).jump_date_seq(),
            final(self).jump_seq() == old(self).jump_seq(),
            final(self).rule() == old(self).rule(),
            final(self).calendar_spec() == old(self).calendar_spec(),
            final(self).day_counter_spec() == old(self).day_counter_spec(),
            final(self).settlement_days_spec() == old(self).settlement_days_spec(),
    {
        self.reference_date = Some(date);
    }

    pub fn set_day_counter(&mut self, day_counter: D)
        ensures
            final(self).day_counter_spec() == day_counter,
            final(self).same_content(old(self)),
            final(self).calendar_spec() == old(self).calendar_spec(),
            final(self).settlement_days_spec() == old(self).settlement_days_spec(),
    {
        self.day_counter = day_counter;
    }

    pub fn set_settlement_days(&mut self, settlement_days: i64)
        ensures
            final(self).settlement_days_spec() == settlement_days,
            final(self).same_content(old(self)),
            final(self).calendar_spec() == old(self).calendar_spec(),
            final(self).day_counter_spec() == old(self).day_counter_spec(),
    {
        self.settlement_days = settlement_days;
    }

    /// Bounds the curve: queries past `max_date` then need extrapolation.
    pub fn set_max_date(&mut self, max_date: Date)
        requires
            old(self).wf(),
            match old(self).reference() {
                Some(r) => !max_date.precedes(r),
                None => true,
            },
        ensures
            final(self).wf(),
            final(self).horizon() == Some(max_date),
            final(self).reference() == old(self).reference(),
            final(self).jump_date_seq() == old(self).jump_date_seq(),
            final(self).jump_seq() == old(self).jump_seq(),
            final(self).rule() == old(self).rule(),
            final(self).calendar_spec() == old(self).calendar_spec(),
            final(self).day_counter_spec() == old(self).day_counter_spec(),
            final(self).settlement_days_spec() == old(self).settlement_days_spec(),
    {
        self.max_date = Some(max_date);
    }

    /// The date at which every discount factor is one.
    pub fn reference_date(&self) -> (r: Result<Date, TermError>)
        ensures
            r == match self.reference() {
                Some(d) => Ok(d),
                None => Err(TermError::Unresolved),
            },
    {
        match self.reference_date {
            Some(d) => Ok(d),
            None => Err(TermError::Unresolved),
        }
    }

    /// The latest date the curve answers for without extrapolation; `None`
    /// when it is unbounded.
    pub fn max_date(&self) -> (r: Option<Date>)
        ensures
            r == self.horizon(),
    {
        self.max_date
    }

    pub fn calendar(&self) -> (r: &C)
        ensures
            *r == self.calendar_spec(),
    {
        &self.calendar
    }

    pub fn day_counter(&self) -> (r: &D)
        ensures
            *r == self.day_counter_spec(),
    {
        &self.day_counter
    }

    pub fn settlement_days(&self) -> (r: i64)
        ensures
            r == self.settlement_days_spec(),
    {
        self.settlement_days
    }

    pub fn jumps(&self) -> (r: &Vec<Q>)
        ensures
            r@ == self.jump_seq(),
    {
        &self.jumps
    }

    pub fn jump_dates(&self) -> (r: &Vec<Date>)
        ensures
            r@ == self.jump_date_seq(),
    {
        &self.jump_dates
    }

    /// The rule that gives the discount factor before jumps.
    pub fn discount_rule(&self) -> (r: &R)
        ensures
            *r == self.rule(),
    {
        &self.discount_impl
    }

    /// Checks that `date` lies in the curve's range: not before the
    /// reference date, and not past the latest date unless `extrapolate`.
    pub fn check_range(&self, date: &Date, extrapolate: bool) -> (r: Result<(), TermError>)
        ensures
            r == match self.range_error(*date, extrapolate) {
                Some(e) => Err(e),
                None => Ok(()),
            },
    {
        match self.reference_date {
            None => Err(TermError::Unresolved),
            Some(r) => {
                let beyond = match self.max_date {
                    Some(m) => m.is_before(date),
                    None => false,
                };
                if date.is_before(&r) || (beyond && !extrapolate) {
                    Err(TermError::OutOfRange)
                } else {
                    Ok(())
                }
            },
        }
    }

    /// The jumps whose values multiply the discount factor at `date`, in
    /// increasing order, each once: those anchored strictly between the
    /// reference date and `date`.
    pub fn applied_jumps(&self, date: &Date) -> (r: Vec<usize>)
        requires
            self.wf(),
        ensures
            forall|i: int| 0 <= i < r@.len() ==> self.jump_applies(#[trigger] r@[i] as int, *date),
            forall|i: int, j: int| 0 <= i < j < r@.len() ==> r@[i] < r@[j],
            forall|n: int|
                #![trigger self.jump_applies(n, *date)]
                self.jump_applies(n, *date) ==> exists|i: int| 0 <= i < r@.len() && r@[i] == n,
    {
        let mut r: Vec<usize> = Vec::new();
        match self.reference_date {
            None => {},
            Some(reference) => {
                let n: usize = self.jump_dates.len();
                let mut k: usize = 0;
                while k < n
                    invariant
                        n == self.jump_date_seq().len(),
                        self.reference() == Some(reference),
                        k <= n,
                        forall|i: int|
                            0 <= i < r@.len() ==> self.jump_applies(#[trigger] r@[i] as int, *date),
                        forall|i: int| 0 <= i < r@.len() ==> #[trigger] r@[i] < k,
                        forall|i: int, j: int| 0 <= i < j < r@.len() ==> r@[i] < r@[j],
                        forall|m: int|
                            #![trigger self.jump_applies(m, *date)]
                            0 <= m < k && self.jump_applies(m, *date) ==> exists|i: int|
                                0 <= i < r@.len() && r@[i] == m,
                    decreases n - k,
                {
                    let ghost before = r@;
                    let jd = &self.jump_dates[k];
                    if reference.is_before(jd) && jd.is_before(date) {
                        r.push(k);
                    }
                    proof {
                        assert forall|m: int|
                            0 <= m < k + 1 && self.jump_applies(m, *date) implies exists|i: int|
                                0 <= i < r@.len() && r@[i] == m by {
                            if m == k {
                                assert(r@[r@.len() - 1] == m);
                            } else {
                                let i = choose|i: int| 0 <= i < before.len() && before[i] == m;
                                assert(r@[i] == m);
                            }
                        }
                    }
                    k += 1;
                }
            },
        }
        r
    }

    /// The jumps that enter the discount factor at `date`, after the range
    /// check of that date.
    pub fn discount_jumps(&self, date: &Date, extrapolate: bool) -> (r: Result<
        Vec<usize>,
        TermError,
    >)
        requires
            self.wf(),
        ensures
            match self.range_error(*date, extrapolate) {
                Some(e) => r == Err::<Vec<usize>, TermError>(e),
                None => r is Ok,
            },
            r matches Ok(v) ==> {
                &&& forall|i: int|
                    0 <= i < v@.len() ==> self.jump_applies(#[trigger] v@[i] as int, *date)
                &&& forall|i: int, j: int| 0 <= i < j < v@.len() ==> v@[i] < v@[j]
                &&& forall|n: int|
                    #![trigger self.jump_applies(n, *date)]
                    self.jump_applies(n, *date) ==> exists|i: int| 0 <= i < v@.len() && v@[i] == n
            },
    {
        match self.check_range(date, extrapolate) {
            Err(e) => Err(e),
            Ok(()) => Ok(self.applied_jumps(date)),
        }
    }

    /// The interval a zero-rate query at `date` inverts over: the
    /// instantaneous rate at the reference date itself, else the interval
    /// from the reference date to `date`.
    pub fn zero_rate_span(&self, date: &Date, extrapolate: bool) -> (r: Result<RateSpan, TermError>)
        ensures
            r == self.zero_span(*date, extrapolate),
    {
        match self.reference_date {
            None => Err(TermError::Unresolved),
            Some(reference) => {
                if date.same_day(&reference) {
                    Ok(RateSpan::Instantaneous(reference))
                } else {
                    match self.check_range(date, extrapolate) {
                        Err(e) => Err(e),
                        Ok(()) => Ok(RateSpan::Between(reference, *date)),
                    }
                }
            },
        }
    }

    /// The interval a forward-rate query from `d1` to `d2` inverts over: the
    /// instantaneous rate where the dates are equal; an error where `d2`
    /// precedes `d1`.
    pub fn forward_rate_span(&self, d1: &Date, d2: &Date, extrapolate: bool) -> (r: Result<
        RateSpan,
        TermError,
    >)
        ensures
            r == self.forward_span(*d1, *d2, extrapolate),
    {
        if d1.same_day(d2) {
            match self.check_range(d1, extrapolate) {
                Err(e) => Err(e),
                Ok(()) => Ok(RateSpan::Instantaneous(*d1)),
            }
        } else if d2.is_before(d1) {
            Err(TermError::DomainError)
        } else {
            match self.check_range(d1, extrapolate) {
                Err(e) => Err(e),
                Ok(()) => match self.check_range(d2, extrapolate) {
                    Err(e) => Err(e),
                    Ok(()) => Ok(RateSpan::Between(*d1, *d2)),
                },
            }
        }
    }
}

/// At the reference date the range check passes, with or without
/// extrapolation, and no jump applies.
pub proof fn lemma_reference_date_unjumped<C, D, Q, R>(
    curve: &YieldTermStructure<C, D, Q, R>,
    n: int,
    extrapolate: bool,
)
    requires
        curve.wf(),
        curve.reference() is Some,
    ensures
        curve.range_error(curve.reference()->0, extrapolate) is None,
        !curve.jump_applies(n, curve.reference()->0),
{
}

/// A jump anchored on the query date does not apply there; one anchored
/// strictly between the reference date and the query date does.
pub proof fn lemma_jump_interiority<C, D, Q, R>(
    curve: &YieldTermStructure<C, D, Q, R>,
    n: int,
    date: Date,
)
    requires
        curve.wf(),
        curve.reference() is Some,
        0 <= n < curve.jump_date_seq().len(),
    ensures
        curve.jump_date_seq()[n] == date ==> !curve.jump_applies(n, date),
        curve.reference()->0.precedes(curve.jump_date_seq()[n]) && curve.jump_date_seq()[n].precedes(
            date,
        ) ==> curve.jump_applies(n, date),
{
}

/// Past the latest date, a query fails with `OutOfRange` unless it
/// extrapolates, and passes when it does.
pub proof fn lemma_range_enforcement<C, D, Q, R>(curve: &YieldTermStructure<C, D, Q, R>, date: Date)
    requires
        curve.wf(),
        curve.reference() is Some,
        curve.horizon() matches Some(m) && m.precedes(date),
    ensures
        curve.range_error(date, false) == Some(TermError::OutOfRange),
        curve.range_error(date, true) is None,
{
}

/// A forward query over a zero-length interval in range asks for the
/// instantaneous rate at that date; at the reference date it asks for what
/// the zero-rate query there asks for.
pub proof fn lemma_degenerate_forward<C, D, Q, R>(
    curve: &YieldTermStructure<C, D, Q, R>,
    d: Date,
    extrapolate: bool,
)
    requires
        curve.wf(),
        curve.range_error(d, extrapolate) is None,
    ensures
        curve.forward_span(d, d, extrapolate) == Ok::<RateSpan, TermError>(
            RateSpan::Instantaneous(d),
        ),
        curve.reference() == Some(d) ==> curve.forward_span(d, d, extrapolate) == curve.zero_span(
            d,
            extrapolate,
        ),
{
}

/// A forward query whose end precedes its start fails with `DomainError`;
/// with the two dates swapped, and both in range, it asks for the interval
/// between them.
pub proof fn lemma_forward_ordering<C, D, Q, R>(
    curve: &YieldTermStructure<C, D, Q, R>,
    d1: Date,
    d2: Date,
    extrapolate: bool,
)
    requires
        curve.wf(),
        d2.precedes(d1),
    ensures
        curve.forward_span(d1, d2, extrapolate) == Err::<RateSpan, TermError>(
            TermError::DomainError,
        ),
        curve.range_error(d1, extrapolate) is None && curve.range_error(d2, extrapolate) is None
            ==> curve.forward_span(d2, d1, extrapolate) == Ok::<RateSpan, TermError>(
            RateSpan::Between(d2, d1),
        ),
{
}

} // verus!
