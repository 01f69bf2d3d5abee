use bigdecimal::BigDecimal;
use vstd::prelude::*;

use crate::calculation_errors::{DieselUsageCalculationError, UnitInjectorFailCalculationError};

verus! {

/// A vehicle model that can compute fuel consumption over a distance.
pub trait DieselUsageCalculator: Send + Sync {
    /// Fuel used over `distance` at a nominal `fuel_usage` per 100 distance
    /// units, for a vehicle built in `year_or_production`. No calculator
    /// succeeds on a rate or a distance below one.
    fn calc_consumption_for_distance(
        &self,
        fuel_usage: usize,
        distance: usize,
        year_or_production: usize,
    ) -> (r: Result<BigDecimal, DieselUsageCalculationError>)
        ensures
            r is Ok ==> fuel_usage >= 1 && distance >= 1,
    ;
}

/// The calculator bound before any real vehicle model: it always reports a
/// configuration error.
pub struct NullDieselUsageCalculator;

impl DieselUsageCalculator for NullDieselUsageCalculator {
    fn calc_consumption_for_distance(
        &self,
        _fuel_usage: usize,
        _distance: usize,
        _year_or_production: usize,
    ) -> (r: Result<BigDecimal, DieselUsageCalculationError>)
        ensures
            r == Err::<BigDecimal, _>(DieselUsageCalculationError::Unimplemented),
    {
        Err(DieselUsageCalculationError::Unimplemented)
    }
}

/// A vehicle model that can estimate the probability of a unit-injector
/// failure.
pub trait UnitInjectorFailProbabilityCalculator: Send + Sync {
    /// The failure probability of the vehicle with identification number
    /// `vin`. No estimator succeeds on an empty `vin`.
    fn calc_failure_probability(&self, vin: &str) -> (r: Result<
        BigDecimal,
        UnitInjectorFailCalculationError,
    >)
        ensures
            r is Ok ==> vin@.len() > 0,
    ;
}

/// The estimator bound before any real vehicle model: it always reports a
/// configuration error.
pub struct NullUnitInjectorFailProbabilityCalculator;

impl UnitInjectorFailProbabilityCalculator for NullUnitInjectorFailProbabilityCalculator {
    fn calc_failure_probability(&self, _vin: &str) -> (r: Result<
        BigDecimal,
        UnitInjectorFailCalculationError,
    >)
        ensures
            r == Err::<BigDecimal, _>(UnitInjectorFailCalculationError::Unimplemented),
    {
        Err(UnitInjectorFailCalculationError::Unimplemented)
    }
}

} // verus!
