//! Yield term structure: discount-factor queries with date-anchored
//! multiplicative jumps, and the date-level rules behind zero and forward
//! rate queries.

pub mod curve;
pub mod date;
