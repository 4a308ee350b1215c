use yieldcurve::curve::{RateSpan, TermError, YieldTermStructure};
use yieldcurve::date::{days_in_month, is_leap_year, Date, Month};

struct Actual365;

type Rule = fn(f64) -> f64;

fn flat(t: f64) -> f64 {
    (-0.05 * t).exp()
}

fn d(day: u8, month: Month, year: i32) -> Date {
    Date::new(day, month, year)
}

fn curve_with(
    jumps: Vec<f64>,
    jump_dates: Vec<Date>,
) -> YieldTermStructure<&'static str, Actual365, f64, Rule> {
    YieldTermStructure::new(
        "TARGET",
        d(1, Month::January, 2024),
        Actual365,
        2,
        jumps,
        jump_dates,
        flat as Rule,
    )
}

#[test]
fn date_order_and_fields() {
    let a = d(31, Month::December, 2024);
    let b = d(1, Month::January, 2025);
    assert!(a.is_before(&b));
    assert!(!b.is_before(&a));
    assert!(!a.is_before(&a));
    assert!(a.same_day(&d(31, Month::December, 2024)));
    assert_eq!(a.year(), 2024);
    assert_eq!(a.month, 12);
    assert_eq!(Month::March.number(), 3);
    assert!(d(1, Month::March, 2024).is_before(&d(2, Month::March, 2024)));
    assert!(d(28, Month::February, 2024).is_before(&d(1, Month::March, 2024)));
}

#[test]
fn leap_years_and_month_lengths() {
    assert!(is_leap_year(2024));
    assert!(!is_leap_year(2023));
    assert!(!is_leap_year(1900));
    assert!(is_leap_year(2000));
    assert_eq!(days_in_month(2024, 2), 29);
    assert_eq!(days_in_month(2023, 2), 28);
    assert_eq!(days_in_month(2023, 4), 30);
    assert_eq!(days_in_month(2023, 12), 31);
}

#[test]
fn new_keeps_setup_and_defaults_jump_dates_to_year_ends() {
    let curve = curve_with(vec![0.99, 0.98, 0.97], vec![]);
    assert_eq!(curve.reference_date(), Ok(d(1, Month::January, 2024)));
    assert_eq!(*curve.calendar(), "TARGET");
    assert_eq!(curve.settlement_days(), 2);
    assert_eq!(curve.max_date(), None);
    assert_eq!(curve.jumps(), &vec![0.99, 0.98, 0.97]);
    assert_eq!(
        curve.jump_dates(),
        &vec![
            d(31, Month::December, 2024),
            d(31, Month::December, 2025),
            d(31, Month::December, 2026),
        ]
    );
    let rule = curve.discount_rule();
    assert!((rule(1.0) - (-0.05f64).exp()).abs() < 1e-15);
}

#[test]
fn new_keeps_supplied_jump_dates() {
    let dates = vec![d(15, Month::June, 2024), d(15, Month::June, 2025)];
    let curve = curve_with(vec![0.99, 0.98], dates.clone());
    assert_eq!(curve.jump_dates(), &dates);
}

#[test]
fn new_without_jumps_has_no_jump_dates() {
    let curve = curve_with(vec![], vec![]);
    assert!(curve.jump_dates().is_empty());
    assert!(curve.jumps().is_empty());
}

#[test]
fn setters_replace_one_field() {
    let mut curve = curve_with(vec![0.99], vec![]);
    curve.set_calendar("NYSE");
    assert_eq!(*curve.calendar(), "NYSE");
    curve.set_settlement_days(0);
    assert_eq!(curve.settlement_days(), 0);
    curve.set_reference_date(d(1, Month::July, 2024));
    assert_eq!(curve.reference_date(), Ok(d(1, Month::July, 2024)));
    curve.set_day_counter(Actual365);
    curve.set_max_date(d(31, Month::December, 2030));
    assert_eq!(curve.max_date(), Some(d(31, Month::December, 2030)));
    assert_eq!(curve.jump_dates(), &vec![d(31, Month::December, 2024)]);
}

#[test]
fn reference_date_discount_is_in_range_and_unjumped() {
    let curve = curve_with(vec![0.9, 0.8], vec![d(1, Month::January, 2024), d(1, Month::June, 2024)]);
    let reference = d(1, Month::January, 2024);
    assert_eq!(curve.discount_jumps(&reference, false), Ok(vec![]));
    assert_eq!(curve.check_range(&reference, false), Ok(()));
}

#[test]
fn jump_on_query_date_is_not_applied() {
    let curve = curve_with(vec![0.9, 0.8], vec![d(1, Month::June, 2024), d(1, Month::June, 2025)]);
    assert_eq!(curve.applied_jumps(&d(1, Month::June, 2024)), vec![]);
    assert_eq!(curve.applied_jumps(&d(2, Month::June, 2024)), vec![0]);
    assert_eq!(curve.applied_jumps(&d(1, Month::June, 2025)), vec![0]);
    assert_eq!(curve.applied_jumps(&d(2, Month::June, 2025)), vec![0, 1]);
}

#[test]
fn jumps_before_reference_are_not_applied() {
    let curve = curve_with(
        vec![0.9, 0.8, 0.7],
        vec![d(1, Month::June, 2023), d(1, Month::June, 2025), d(1, Month::March, 2024)],
    );
    assert_eq!(curve.applied_jumps(&d(1, Month::January, 2030)), vec![1, 2]);
}

#[test]
fn query_before_reference_is_out_of_range() {
    let curve = curve_with(vec![], vec![]);
    let early = d(31, Month::December, 2023);
    assert_eq!(curve.check_range(&early, true), Err(TermError::OutOfRange));
    assert_eq!(curve.discount_jumps(&early, true), Err(TermError::OutOfRange));
}

#[test]
fn query_past_max_date_needs_extrapolation() {
    let mut curve = curve_with(vec![0.95], vec![d(1, Month::June, 2024)]);
    curve.set_max_date(d(1, Month::January, 2026));
    let late = d(2, Month::January, 2026);
    assert_eq!(curve.check_range(&late, false), Err(TermError::OutOfRange));
    assert_eq!(curve.discount_jumps(&late, false), Err(TermError::OutOfRange));
    assert_eq!(curve.discount_jumps(&late, true), Ok(vec![0]));
    assert_eq!(curve.check_range(&d(1, Month::January, 2026), false), Ok(()));
}

#[test]
fn zero_rate_at_reference_is_instantaneous() {
    let curve = curve_with(vec![], vec![]);
    let reference = d(1, Month::January, 2024);
    assert_eq!(
        curve.zero_rate_span(&reference, false),
        Ok(RateSpan::Instantaneous(reference))
    );
}

#[test]
fn zero_rate_one_year_out_spans_from_reference() {
    let curve = curve_with(vec![], vec![]);
    let reference = d(1, Month::January, 2024);
    let one_year = d(1, Month::January, 2025);
    assert_eq!(
        curve.zero_rate_span(&one_year, false),
        Ok(RateSpan::Between(reference, one_year))
    );
    assert_eq!(curve.discount_jumps(&one_year, false), Ok(vec![]));
}

#[test]
fn zero_rate_before_reference_fails() {
    let curve = curve_with(vec![], vec![]);
    assert_eq!(
        curve.zero_rate_span(&d(1, Month::January, 2023), true),
        Err(TermError::OutOfRange)
    );
}

#[test]
fn degenerate_forward_is_instantaneous() {
    let curve = curve_with(vec![], vec![]);
    let day = d(1, Month::March, 2025);
    assert_eq!(
        curve.forward_rate_span(&day, &day, true),
        Ok(RateSpan::Instantaneous(day))
    );
    let reference = d(1, Month::January, 2024);
    assert_eq!(
        curve.forward_rate_span(&reference, &reference, false),
        curve.zero_rate_span(&reference, false)
    );
}

#[test]
fn forward_with_reversed_dates_is_a_domain_error() {
    let curve = curve_with(vec![], vec![]);
    let d1 = d(1, Month::March, 2026);
    let d2 = d(1, Month::March, 2025);
    assert_eq!(curve.forward_rate_span(&d1, &d2, true), Err(TermError::DomainError));
    assert_eq!(
        curve.forward_rate_span(&d2, &d1, true),
        Ok(RateSpan::Between(d2, d1))
    );
}

#[test]
fn forward_out_of_range_is_reported() {
    let mut curve = curve_with(vec![], vec![]);
    curve.set_max_date(d(1, Month::January, 2025));
    let d1 = d(1, Month::June, 2024);
    let d2 = d(1, Month::June, 2025);
    assert_eq!(curve.forward_rate_span(&d1, &d2, false), Err(TermError::OutOfRange));
    assert_eq!(
        curve.forward_rate_span(&d1, &d2, true),
        Ok(RateSpan::Between(d1, d2))
    );
    assert_eq!(
        curve.forward_rate_span(&d2, &d2, false),
        Err(TermError::OutOfRange)
    );
    assert_eq!(
        curve.forward_rate_span(&d(1, Month::June, 2023), &d1, false),
        Err(TermError::OutOfRange)
    );
}

#[test]
fn moving_reference_past_a_jump_drops_it() {
    let mut curve = curve_with(vec![0.9, 0.8], vec![]);
    let query = d(1, Month::June, 2026);
    assert_eq!(curve.applied_jumps(&query), vec![0, 1]);
    curve.set_reference_date(d(1, Month::January, 2025));
    assert_eq!(curve.applied_jumps(&query), vec![1]);
    assert_eq!(
        curve.discount_jumps(&d(1, Month::June, 2024), true),
        Err(TermError::OutOfRange)
    );
}
