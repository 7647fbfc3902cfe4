//! Extended internal rate of return (XIRR) support library.
//!
//! The calendar preprocessing of a dated cash-flow series is verified here:
//! timestamp validation, the same-day short circuit, chronological-order
//! checking, whole-year and day differences, and the bounded decision rule
//! of the root solver's iteration loop.

pub mod calendar;
pub mod preprocess;
pub mod solver;
