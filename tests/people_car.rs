use std::str::FromStr;

use bigdecimal::BigDecimal;
use chrono::Datelike;

use diesel_calc::calculation_errors::{DieselUsageCalculationError, UnitInjectorFailCalculationError};
use diesel_calc::calculation_traits::{
    DieselUsageCalculator, NullDieselUsageCalculator, NullUnitInjectorFailProbabilityCalculator,
    UnitInjectorFailProbabilityCalculator,
};
use diesel_calc::calculators::people_car::PasWagonC6Calculator;
use diesel_calc::calculators::{
    failure_probability_at, DieselConsumption, UnitInjectorRandomCalc, WearCoefficient, WearRatio,
};

fn dec(s: &str) -> BigDecimal {
    BigDecimal::from_str(s).unwrap()
}

fn coefficient_two() -> WearCoefficient {
    WearCoefficient { mantissa: 20, scale: 1 }
}

#[test]
fn calc_consumptions() {
    let car = PasWagonC6Calculator::new(coefficient_two());
    let fuel_usage = 5usize;
    let current_year = chrono::Local::now().year() as usize;

    // A vehicle of this year has the neutral ratio 1.0, which the surcharge
    // `rate + rate * ratio` adds once: 5 + 5 * 1.0. The multiplicative
    // surcharge of earlier revisions, `rate * ratio`, gave 5 here.
    let consumption = car.calc_consumption_for_distance(fuel_usage, 100, current_year).unwrap();
    assert_eq!(BigDecimal::from(10), consumption);

    let consumption = car.calc_consumption_for_distance(fuel_usage, 100, current_year - 1).unwrap();
    assert_eq!(BigDecimal::from(10), consumption);
}

#[test]
fn test_injection_failure() {
    let car = PasWagonC6Calculator::new(coefficient_two());
    let fail_chance = car.calc_failure_probability("_unused");
    assert!(fail_chance.is_ok());
}

#[test]
fn usage_without_wear_is_distance_times_rate() {
    assert_eq!(DieselConsumption::new(5).fuel_usage_at(100).unwrap(), BigDecimal::from(5));
    assert_eq!(DieselConsumption::new(8).fuel_usage_at(50).unwrap(), BigDecimal::from(4));
}

#[test]
fn usage_is_rounded_to_two_significant_digits() {
    // 7 * 250 / 100 = 17.5
    assert_eq!(DieselConsumption::new(7).fuel_usage_at(250).unwrap(), dec("18"));
    // 3 * 333 / 100 = 9.99
    assert_eq!(DieselConsumption::new(3).fuel_usage_at(333).unwrap(), dec("10"));
    // 6 * 123 / 100 = 7.38
    assert_eq!(DieselConsumption::new(6).fuel_usage_at(123).unwrap(), dec("7.4"));
}

#[test]
fn new_vehicle_adds_neutral_ratio_once() {
    let wear = WearRatio::new_in_year(2026, coefficient_two(), 2026).unwrap();
    let usage = DieselConsumption::new(5).with_wear(wear).fuel_usage_at(100).unwrap();
    assert_eq!(usage, BigDecimal::from(10));
}

#[test]
fn one_year_old_vehicle_with_coefficient_two() {
    let car = PasWagonC6Calculator::new(coefficient_two());
    assert_eq!(car.calc_consumption_in_year(5, 100, 2025, 2026).unwrap(), BigDecimal::from(10));
}

#[test]
fn usage_is_capped_at_three_times_the_baseline() {
    let car = PasWagonC6Calculator::new(coefficient_two());
    // age 3: 5 + 5 * 3 = 20, above the cap of 15
    assert_eq!(car.calc_consumption_in_year(5, 100, 2023, 2026).unwrap(), BigDecimal::from(15));
    // age 100: far above the cap
    assert_eq!(car.calc_consumption_in_year(5, 100, 1926, 2026).unwrap(), BigDecimal::from(15));
}

#[test]
fn fractional_coefficient_scales_with_age() {
    let car = PasWagonC6Calculator::new(WearCoefficient { mantissa: 1015, scale: 3 });
    // age 10: ratio 0.15, rate 5 * 1.15 = 5.75
    assert_eq!(car.calc_consumption_in_year(5, 100, 2016, 2026).unwrap(), dec("5.8"));
}

#[test]
fn get_ratio_is_age_times_excess() {
    let w = WearRatio::new_in_year(2016, WearCoefficient { mantissa: 1015, scale: 3 }, 2026).unwrap();
    assert_eq!(w.get_ratio(), (150, 3));
    let w = WearRatio::new_in_year(2026, WearCoefficient { mantissa: 1015, scale: 3 }, 2026).unwrap();
    assert_eq!(w.get_ratio(), (1000, 3));
}

#[test]
fn low_rate_is_invalid() {
    match DieselConsumption::new(0).fuel_usage_at(100) {
        Err(DieselUsageCalculationError::InvalidParams(m)) => {
            assert_eq!(m, "Fuel usage per 100km cannot be less than 1")
        }
        other => panic!("unexpected {:?}", other),
    }
}

#[test]
fn low_distance_is_invalid() {
    match DieselConsumption::new(5).fuel_usage_at(0) {
        Err(DieselUsageCalculationError::InvalidParams(m)) => {
            assert_eq!(m, "Distance cannot be less than 1")
        }
        other => panic!("unexpected {:?}", other),
    }
}

#[test]
fn coefficient_below_one_is_unimplemented() {
    let low = WearCoefficient { mantissa: 9, scale: 1 };
    assert!(matches!(
        WearRatio::new_in_year(2000, low, 2026),
        Err(DieselUsageCalculationError::Unimplemented)
    ));
    assert!(matches!(
        WearRatio::new_in_year(3000, low, 2026),
        Err(DieselUsageCalculationError::Unimplemented)
    ));
    let car = PasWagonC6Calculator::new(low);
    assert!(matches!(
        car.calc_consumption_in_year(0, 0, 2000, 2026),
        Err(DieselUsageCalculationError::Unimplemented)
    ));
}

#[test]
fn scale_beyond_any_mantissa_is_unimplemented() {
    let wide = WearCoefficient { mantissa: u64::MAX, scale: 20 };
    assert!(matches!(
        WearRatio::new_in_year(2000, wide, 2026),
        Err(DieselUsageCalculationError::Unimplemented)
    ));
}

#[test]
fn next_year_is_invalid() {
    match WearRatio::new_in_year(2027, coefficient_two(), 2026) {
        Err(DieselUsageCalculationError::InvalidParams(m)) => {
            assert_eq!(m, "This car does not exist yet :)")
        }
        _ => panic!("expected an invalid-parameter error"),
    }
    let current_year = chrono::Local::now().year() as usize;
    assert!(matches!(
        WearRatio::new(current_year + 1, coefficient_two()),
        Err(DieselUsageCalculationError::InvalidParams(_))
    ));
    let car = PasWagonC6Calculator::new(coefficient_two());
    assert!(matches!(
        car.calc_consumption_for_distance(5, 100, current_year + 1),
        Err(DieselUsageCalculationError::InvalidParams(_))
    ));
}

#[test]
fn largest_capped_usage_succeeds() {
    let wear = WearRatio::new_in_year(0, coefficient_two(), 2026).unwrap();
    let calc = DieselConsumption::new(usize::MAX).with_wear(wear);
    // 3 * (2^64 - 1)^2 / 100 = 1.0208...e37
    assert_eq!(calc.fuel_usage_at(usize::MAX).unwrap(), dec("1.0e37"));
}

#[test]
fn coefficient_at_scale_nineteen_is_accepted() {
    let one = WearCoefficient { mantissa: 10_000_000_000_000_000_000, scale: 19 };
    let car = PasWagonC6Calculator::new(one);
    // age 1 with coefficient 1.0: no surcharge
    assert_eq!(car.calc_consumption_in_year(5, 100, 2025, 2026).unwrap(), BigDecimal::from(5));
    let below = WearCoefficient { mantissa: 9_999_999_999_999_999_999, scale: 19 };
    assert!(matches!(
        WearRatio::new_in_year(2025, below, 2026),
        Err(DieselUsageCalculationError::Unimplemented)
    ));
}

#[test]
fn largest_inputs_without_wear_succeed() {
    let usage = DieselConsumption::new(usize::MAX).fuel_usage_at(usize::MAX).unwrap();
    // (2^64 - 1)^2 / 100 = 3.4028...e36
    assert_eq!(usage, dec("3.4e36"));
}

#[test]
fn null_calculators_are_unimplemented() {
    assert!(matches!(
        NullDieselUsageCalculator.calc_consumption_for_distance(5, 100, 2000),
        Err(DieselUsageCalculationError::Unimplemented)
    ));
    assert!(matches!(
        NullUnitInjectorFailProbabilityCalculator.calc_failure_probability("VIN"),
        Err(UnitInjectorFailCalculationError::Unimplemented)
    ));
}

#[test]
fn empty_vin_is_invalid() {
    match UnitInjectorRandomCalc.calc_failure_probability("") {
        Err(UnitInjectorFailCalculationError::InvalidParams(m)) => assert_eq!(m, "Vin cannot be empty"),
        other => panic!("unexpected {:?}", other),
    }
    assert!(matches!(
        failure_probability_at("", 42),
        Err(UnitInjectorFailCalculationError::InvalidParams(_))
    ));
}

#[test]
fn failure_probability_at_percent() {
    assert_eq!(failure_probability_at("WVWZZZ1JZXW000001", 42).unwrap(), dec("0.42"));
    assert_eq!(failure_probability_at("WVWZZZ1JZXW000001", 10).unwrap(), dec("0.1"));
}

#[test]
fn repeated_estimates_stay_in_range() {
    let low = dec("0.1");
    let high = dec("0.8");
    for _ in 0..200 {
        let p = PasWagonC6Calculator::new(coefficient_two())
            .calc_failure_probability("WVWZZZ1JZXW000001")
            .unwrap();
        assert!(p >= low && p < high, "{} out of range", p);
        assert_eq!(p.with_prec(2), p);
    }
}

#[test]
fn encoded_result_decodes_to_same_decimal() {
    let usage = PasWagonC6Calculator::new(WearCoefficient { mantissa: 1015, scale: 3 })
        .calc_consumption_in_year(5, 100, 2016, 2026)
        .unwrap();
    let text = serde_json::to_string(&usage).unwrap();
    let back: BigDecimal = serde_json::from_str(&text).unwrap();
    assert_eq!(back, usage);
    assert_eq!(back.to_string(), usage.to_string());
}
