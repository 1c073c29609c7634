//! Spelling out non-negative integers in Faroese.
//!
//! A number is given as a string of decimal digits of any length. It is cut
//! into periods of three digits, each period is put into words with the
//! grammatical gender its position asks for, and every period above the
//! lowest is followed by its scale word (thousand, million, milliard, ...).

pub mod digit;
pub mod laws;
pub mod number;
pub mod period;
pub mod scale;

pub use digit::{Digit, Gender};
pub use number::{str_to_rev_digits, to_faroese_words};
pub use period::hundreds_to_faroese;
