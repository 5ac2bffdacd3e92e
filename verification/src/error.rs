//! The error types of the numeric and date parsers.

use vstd::prelude::*;

verus! {

/// Why a string is not an [`crate::amount::InvoiceAmount`].
#[derive(Debug, Clone, PartialEq, Eq)]
pub enum ParseAmountError {
    /// Nothing but whitespace.
    Empty,
    /// Not a decimal number: a stray character, no digit before the point,
    /// a second point.
    Malformed {
        /// The offered text.
        input: String,
    },
    /// More fraction digits than an amount holds.
    TooManyDecimals {
        /// The offered text.
        input: String,
        /// The most fraction digits an amount holds.
        max: u8,
    },
    /// The value does not fit the amount's range.
    OutOfRange {
        /// The offered text.
        input: String,
    },
}

/// Why an amount operation failed.
#[derive(Debug, Clone, PartialEq, Eq)]
pub enum AmountError {
    /// The result is outside the representable range.
    Overflow,
    /// The value needs more fraction digits than an amount holds.
    PrecisionLoss {
        /// The value, rendered.
        value: String,
        /// The most fraction digits an amount holds.
        max: u8,
    },
}

/// Why a string or a triple is not a calendar date.
#[derive(Debug, Clone, PartialEq, Eq)]
pub enum ParseDateError {
    /// Not of the form `YYYY-MM-DD`.
    Malformed {
        /// The offered text.
        input: String,
    },
    /// The parts do not name a day of the proleptic Gregorian calendar.
    NotACalendarDay {
        /// The year.
        year: i32,
        /// The month.
        month: u8,
        /// The day of the month.
        day: u8,
    },
}

} // verus!
