use bigdecimal::BigDecimal;
use vstd::prelude::*;

use super::{
    current_year,
    failure_outcome,
    fuel_usage_outcome,
    is_invalid_params,
    future_year_message,
    DieselConsumption,
    UnitInjectorRandomCalc,
    WearCoefficient,
    WearRatio,
};
use crate::calculation_errors::{DieselUsageCalculationError, UnitInjectorFailCalculationError};
use crate::calculation_traits::{DieselUsageCalculator, UnitInjectorFailProbabilityCalculator};

verus! {

/// What a consumption request for a vehicle model with coefficient `c`
/// returns when the current year is `current_year`: the wear model's error,
/// or the wear-adjusted consumption for the vehicle's age.
pub open spec fn consumption_outcome(
    c: WearCoefficient,
    fuel_usage: int,
    distance: int,
    production_year: int,
    current_year: int,
    r: Result<BigDecimal, DieselUsageCalculationError>,
) -> bool {
    if !c.is_valid() {
        r == Err::<BigDecimal, DieselUsageCalculationError>(
            DieselUsageCalculationError::Unimplemented,
        )
    } else if production_year > current_year {
        is_invalid_params(r, future_year_message())
    } else {
        fuel_usage_outcome(
            fuel_usage,
            distance,
            Some(((current_year - production_year) as nat, c)),
            r,
        )
    }
}

/// A coefficient below `1.0` makes every consumption request a configuration
/// error, whatever its other inputs.
pub proof fn lemma_low_coefficient_unimplemented(
    c: WearCoefficient,
    fuel_usage: int,
    distance: int,
    production_year: int,
    current_year: int,
    r: Result<BigDecimal, DieselUsageCalculationError>,
)
    requires
        c.mantissa < c.one(),
        consumption_outcome(c, fuel_usage, distance, production_year, current_year, r),
    ensures
        r == Err::<BigDecimal, DieselUsageCalculationError>(
            DieselUsageCalculationError::Unimplemented,
        ),
{
}

/// A production year one year after the current one is an invalid-parameter
/// error.
pub proof fn lemma_next_year_rejected(
    c: WearCoefficient,
    fuel_usage: int,
    distance: int,
    current_year: int,
    r: Result<BigDecimal, DieselUsageCalculationError>,
)
    requires
        c.is_valid(),
        consumption_outcome(c, fuel_usage, distance, current_year + 1, current_year, r),
    ensures
        r matches Err(DieselUsageCalculationError::InvalidParams(_)),
{
}

/// The calculator of the passenger wagon C6 model, with its fixed wear
/// coefficient.
#[derive(Debug)]
pub struct PasWagonC6Calculator {
    wear_ratio: WearCoefficient,
}

impl PasWagonC6Calculator {
    /// The model's wear coefficient.
    pub closed spec fn coefficient(&self) -> WearCoefficient {
        self.wear_ratio
    }

    /// A calculator bound to `wear_ratio`.
    pub fn new(wear_ratio: WearCoefficient) -> (r: Self)
        ensures
            r.coefficient() == wear_ratio,
    {
        PasWagonC6Calculator { wear_ratio }
    }

    /// The fuel used over `distance` by a vehicle of this model built in
    /// `year_or_production`, evaluated in `current_year`.
    pub fn calc_consumption_in_year(
        &self,
        fuel_usage: usize,
        distance: usize,
        year_or_production: usize,
        current_year: i32,
    ) -> (r: Result<BigDecimal, DieselUsageCalculationError>)
        ensures
            consumption_outcome(
                self.coefficient(),
                fuel_usage as int,
                distance as int,
                year_or_production as int,
                current_year as int,
                r,
            ),
    {
        let wear = match WearRatio::new_in_year(year_or_production, self.wear_ratio, current_year) {
            Ok(w) => w,
            Err(e) => return Err(e),
        };
        let calc = DieselConsumption::new(fuel_usage).with_wear(wear);
        calc.fuel_usage_at(distance)
    }
}

impl DieselUsageCalculator for PasWagonC6Calculator {
    fn calc_consumption_for_distance(
        &self,
        fuel_usage: usize,
        distance: usize,
        year_or_production: usize,
    ) -> (r: Result<BigDecimal, DieselUsageCalculationError>)
        ensures
            exists|year: i32|
                consumption_outcome(
                    self.coefficient(),
                    fuel_usage as int,
                    distance as int,
                    year_or_production as int,
                    year as int,
                    r,
                ),
    {
        let year = current_year();
        self.calc_consumption_in_year(fuel_usage, distance, year_or_production, year)
    }
}

impl UnitInjectorFailProbabilityCalculator for PasWagonC6Calculator {
    fn calc_failure_probability(&self, vin: &str) -> (r: Result<
        BigDecimal,
        UnitInjectorFailCalculationError,
    >)
        ensures
            exists|percent: int| 10 <= percent < 80 && failure_outcome(vin@, percent, r),
    {
        UnitInjectorRandomCalc.calc_failure_probability(vin)
    }
}

} // verus!
