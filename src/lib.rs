//! Verified core of a financial calculator: calendar arithmetic, decimal
//! input parsing, cash-flow preparation for XNPV / XIRR, option-input
//! validation, a caller-owned result history and menu navigation.
use vstd::prelude::*;

pub mod date;
pub mod decimal;
pub mod cashflow;
pub mod option;
pub mod history;
pub mod menu;
pub mod text;

verus! {

/// The error kinds of the calculator core.
#[derive(PartialEq, Eq, Structural, Clone, Copy, Debug)]
pub enum CalcError {
    /// Malformed date or numeric text.
    Parse,
    /// A precondition on the inputs is violated (non-positive price, rate at
    /// or below -1, negative volatility or time).
    Domain,
    /// The cash flows contain no sign change, so no rate can zero their value.
    InvalidCashflows,
}

} // verus!
