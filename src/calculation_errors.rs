use vstd::prelude::*;

verus! {

/// Why a fuel consumption calculation gave no result.
#[derive(Debug)]
pub enum DieselUsageCalculationError {
    /// A caller-supplied input breaks a documented precondition; the message
    /// can be shown to the caller as it is.
    InvalidParams(String),
    /// The inputs are valid, but the result cannot be represented.
    CalculationFailed,
    /// The calculator is misconfigured or has no real implementation bound.
    Unimplemented,
}

/// Why a unit-injector failure estimate gave no result.
#[derive(Debug)]
pub enum UnitInjectorFailCalculationError {
    /// A caller-supplied input breaks a documented precondition.
    InvalidParams(String),
    /// The estimator has no real implementation bound.
    Unimplemented,
}

} // verus!
