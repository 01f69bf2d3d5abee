use bigdecimal::BigDecimal;
use chrono::Datelike;
use rand::Rng;
use vstd::prelude::*;

use crate::calculation_errors::{DieselUsageCalculationError, UnitInjectorFailCalculationError};
use crate::calculation_traits::UnitInjectorFailProbabilityCalculator;
use crate::decimal::{rounded_decimal_of, rounded_product, SIGNIFICANT_DIGITS};

pub mod people_car;

verus! {

/// `10^n`.
pub open spec fn pow10(n: nat) -> nat
    decreases n,
{
    if n == 0 {
        1
    } else {
        10 * pow10((n - 1) as nat)
    }
}

proof fn lemma_pow10_monotone(a: nat, b: nat)
    requires
        a <= b,
    ensures
        pow10(a) <= pow10(b),
    decreases b,
{
    if a < b {
        lemma_pow10_monotone(a, (b - 1) as nat);
    }
}

proof fn lemma_pow10_positive(n: nat)
    ensures
        pow10(n) >= 1,
    decreases n,
{
    if n > 0 {
        lemma_pow10_positive((n - 1) as nat);
    }
}

/// The largest scale at which a `u64` mantissa can reach `1.0`.
pub const MAX_COEFFICIENT_SCALE: u8 = 19;

proof fn lemma_valid_scale(c: WearCoefficient)
    requires
        c.is_valid(),
    ensures
        c.scale <= MAX_COEFFICIENT_SCALE,
{
    if c.scale > MAX_COEFFICIENT_SCALE {
        lemma_pow10_monotone(20, c.scale as nat);
        reveal_with_fuel(pow10, 21);
    }
}

/// `10^n` for the scales a wear coefficient may have.
fn pow10_u64(n: u8) -> (r: u64)
    requires
        n <= MAX_COEFFICIENT_SCALE,
    ensures
        r == pow10(n as nat),
{
    let mut r: u64 = 1;
    let mut i: u8 = 0;
    while i < n
        invariant
            i <= n <= MAX_COEFFICIENT_SCALE,
            r == pow10(i as nat),
        decreases n - i,
    {
        proof {
            lemma_pow10_monotone((i + 1) as nat, 19);
            reveal_with_fuel(pow10, 20);
        }
        r = r * 10;
        i = i + 1;
    }
    r
}

/// A wear coefficient, the decimal `mantissa * 10^(-scale)`: how much more fuel
/// a vehicle model needs for each year of age.
#[derive(Clone, Copy, Debug, PartialEq, Eq)]
pub struct WearCoefficient {
    pub mantissa: u64,
    pub scale: u8,
}

impl WearCoefficient {
    /// The value `1.0` at this coefficient's scale.
    pub open spec fn one(&self) -> nat {
        pow10(self.scale as nat)
    }

    /// A usable configuration: a value of at least `1.0`.
    pub open spec fn is_valid(&self) -> bool {
        self.mantissa >= self.one()
    }
}

/// The message of the error for a production year after the current one.
pub open spec fn future_year_message() -> Seq<char> {
    "This car does not exist yet :)"@
}

/// The message of the error for a baseline rate below one.
pub open spec fn low_rate_message() -> Seq<char> {
    "Fuel usage per 100km cannot be less than 1"@
}

/// The message of the error for a distance below one.
pub open spec fn low_distance_message() -> Seq<char> {
    "Distance cannot be less than 1"@
}

/// `r` is an invalid-parameter error with message `msg`.
pub open spec fn is_invalid_params<T>(r: Result<T, DieselUsageCalculationError>, msg: Seq<char>) -> bool {
    match r {
        Err(DieselUsageCalculationError::InvalidParams(m)) => m@ == msg,
        _ => false,
    }
}

/// The age-scaled degradation of a vehicle, times `10^scale` of its
/// coefficient: `age * (coefficient - 1.0)` for a vehicle with an age, and the
/// neutral `1.0` for a vehicle of this year.
pub open spec fn scaled_ratio(age: nat, c: WearCoefficient) -> int {
    if age > 0 {
        age * (c.mantissa - c.one())
    } else {
        c.one() as int
    }
}

/// The fuel rate that a consumption calculation uses, as a decimal
/// `(mantissa, scale)`: the baseline `b` without wear; with wear, the baseline
/// plus its age-scaled surcharge, `b + b * ratio`, capped at `3 * b`.
pub open spec fn effective_rate(b: int, wear: Option<(nat, WearCoefficient)>) -> (int, nat) {
    match wear {
        None => (b, 0),
        Some((age, c)) => {
            let adjusted = b * (c.one() + scaled_ratio(age, c));
            if adjusted > 3 * b * c.one() {
                (3 * b, 0)
            } else {
                (adjusted, c.scale as nat)
            }
        },
    }
}

/// What a consumption calculation at baseline `b` over distance `d` returns:
/// `(d / 100) * rate` rounded to two significant digits.
pub open spec fn fuel_usage_outcome(
    b: int,
    d: int,
    wear: Option<(nat, WearCoefficient)>,
    r: Result<BigDecimal, DieselUsageCalculationError>,
) -> bool {
    if b < 1 {
        is_invalid_params(r, low_rate_message())
    } else if d < 1 {
        is_invalid_params(r, low_distance_message())
    } else {
        let (rate, scale) = effective_rate(b, wear);
        r == Ok::<BigDecimal, DieselUsageCalculationError>(
            rounded_decimal_of(d * rate, scale as int + 2, SIGNIFICANT_DIGITS as int),
        )
    }
}

/// What building a wear ratio for `production_year` with coefficient `c`
/// returns when the current year is `current_year`.
pub open spec fn wear_ratio_outcome(
    production_year: int,
    c: WearCoefficient,
    current_year: int,
    r: Result<WearRatio, DieselUsageCalculationError>,
) -> bool {
    if !c.is_valid() {
        r == Err::<WearRatio, DieselUsageCalculationError>(
            DieselUsageCalculationError::Unimplemented,
        )
    } else if production_year > current_year {
        is_invalid_params(r, future_year_message())
    } else {
        r matches Ok(w) && w.car_age() == current_year - production_year && w.coefficient() == c
    }
}

/// Without wear, the fuel used over `d` at baseline `b` is `(d / 100) * b`
/// rounded to two significant digits.
pub proof fn lemma_usage_without_wear(
    b: usize,
    d: usize,
    r: Result<BigDecimal, DieselUsageCalculationError>,
)
    requires
        b >= 1,
        d >= 1,
        fuel_usage_outcome(b as int, d as int, None, r),
    ensures
        r == Ok::<BigDecimal, DieselUsageCalculationError>(
            rounded_decimal_of(d * b, 2, SIGNIFICANT_DIGITS as int),
        ),
{
}

/// For a vehicle of this year the ratio is the neutral `1.0`, and it is added
/// once as a surcharge: the rate used is `b + b * 1.0`, twice the baseline.
pub proof fn lemma_usage_of_new_vehicle(
    b: usize,
    d: usize,
    c: WearCoefficient,
    r: Result<BigDecimal, DieselUsageCalculationError>,
)
    requires
        b >= 1,
        d >= 1,
        c.is_valid(),
        fuel_usage_outcome(b as int, d as int, Some((0, c)), r),
    ensures
        effective_rate(b as int, Some((0, c))) == (2 * b * c.one(), c.scale as nat),
        r == Ok::<BigDecimal, DieselUsageCalculationError>(
            rounded_decimal_of(d * (2 * b * c.one()), c.scale + 2, SIGNIFICANT_DIGITS as int),
        ),
{
    let one = c.one() as int;
    lemma_pow10_positive(c.scale as nat);
    assert(b * (one + one) == 2 * b * one) by (nonlinear_arith);
    assert(!(2 * b * one > 3 * b * one)) by (nonlinear_arith)
        requires
            b >= 1,
            one >= 1,
    ;
}

/// Whatever the age and the coefficient, the rate used never exceeds three
/// times the baseline.
pub proof fn lemma_rate_at_most_triple(b: nat, age: nat, c: WearCoefficient)
    requires
        c.is_valid(),
    ensures
        effective_rate(b as int, Some((age, c))).0 <= 3 * b * pow10(
            effective_rate(b as int, Some((age, c))).1,
        ),
{
    let (rate, scale) = effective_rate(b as int, Some((age, c)));
    if b * (c.one() + scaled_ratio(age, c)) > 3 * b * c.one() {
        assert(pow10(0) == 1);
        assert(rate == 3 * b && scale == 0);
    } else {
        assert(rate == b * (c.one() + scaled_ratio(age, c)));
        assert(scale == c.scale as nat);
        assert(pow10(scale) == c.one());
    }
}

/// Where the surcharged rate `b + b * ratio` exceeds `3 * b`, the result is
/// exactly that of a calculation without wear at baseline `3 * b`.
pub proof fn lemma_usage_capped(
    b: usize,
    d: usize,
    age: nat,
    c: WearCoefficient,
    r: Result<BigDecimal, DieselUsageCalculationError>,
)
    requires
        b >= 1,
        c.is_valid(),
        b * (c.one() + scaled_ratio(age, c)) > 3 * b * c.one(),
        fuel_usage_outcome(b as int, d as int, Some((age, c)), r),
    ensures
        fuel_usage_outcome(3 * b, d as int, None, r),
{
}

/// The estimate for an empty identification number is an invalid-parameter
/// error; for any other, each estimate is a percentage in `[10, 80)` as a
/// decimal with two significant digits.
pub proof fn lemma_failure_estimate(
    vin: Seq<char>,
    r: Result<BigDecimal, UnitInjectorFailCalculationError>,
)
    requires
        exists|percent: int| 10 <= percent < 80 && failure_outcome(vin, percent, r),
    ensures
        vin.len() == 0 ==> r matches Err(UnitInjectorFailCalculationError::InvalidParams(_)),
        vin.len() > 0 ==> exists|percent: int|
            10 <= percent < 80 && r == Ok::<BigDecimal, UnitInjectorFailCalculationError>(
                rounded_decimal_of(percent, 2, SIGNIFICANT_DIGITS as int),
            ),
{
}

/// The current calendar year.
/// Relies on `chrono::Local::now` and `Datelike::year`; the value depends on
/// the clock and the time zone, so nothing is stated of it.
#[verifier::external_body]
fn current_year() -> (r: i32) {
    chrono::Local::now().year()
}

/// The degradation of a vehicle, from its age and its model's wear coefficient.
pub struct WearRatio {
    car_age: usize,
    wear_ratio: WearCoefficient,
}

impl WearRatio {
    /// The vehicle's age in years.
    pub closed spec fn car_age(&self) -> nat {
        self.car_age as nat
    }

    /// The vehicle model's wear coefficient.
    pub closed spec fn coefficient(&self) -> WearCoefficient {
        self.wear_ratio
    }

    /// The wear ratio of a vehicle built in `production_year`, evaluated in
    /// `current_year`. A coefficient below `1.0` is a configuration error,
    /// whatever the year.
    pub fn new_in_year(production_year: usize, wear_ratio: WearCoefficient, current_year: i32) -> (r:
        Result<Self, DieselUsageCalculationError>)
        ensures
            wear_ratio_outcome(production_year as int, wear_ratio, current_year as int, r),
            r matches Ok(w) ==> w.coefficient().is_valid(),
    {
        if wear_ratio.scale > MAX_COEFFICIENT_SCALE {
            proof {
                lemma_pow10_monotone(20, wear_ratio.scale as nat);
                reveal_with_fuel(pow10, 21);
            }
            return Err(DieselUsageCalculationError::Unimplemented);
        }
        if wear_ratio.mantissa < pow10_u64(wear_ratio.scale) {
            return Err(DieselUsageCalculationError::Unimplemented);
        }
        if production_year as i128 > current_year as i128 {
            return Err(
                DieselUsageCalculationError::InvalidParams("This car does not exist yet :)".to_owned()),
            );
        }
        let car_age = (current_year as i128 - production_year as i128) as usize;
        Ok(WearRatio { car_age, wear_ratio })
    }

    /// The wear ratio of a vehicle built in `production_year`, evaluated in the
    /// current calendar year.
    pub fn new(production_year: usize, wear_ratio: WearCoefficient) -> (r: Result<
        Self,
        DieselUsageCalculationError,
    >)
        ensures
            exists|year: i32| wear_ratio_outcome(production_year as int, wear_ratio, year as int, r),
            !wear_ratio.is_valid() ==> r == Err::<Self, DieselUsageCalculationError>(
                DieselUsageCalculationError::Unimplemented,
            ),
            r matches Ok(w) ==> w.coefficient().is_valid(),
    {
        let year = current_year();
        Self::new_in_year(production_year, wear_ratio, year)
    }

    /// The degradation ratio as a decimal `(mantissa, scale)`.
    pub fn get_ratio(&self) -> (r: (u128, u8))
        requires
            self.coefficient().is_valid(),
        ensures
            r.0 == scaled_ratio(self.car_age(), self.coefficient()),
            r.1 == self.coefficient().scale,
    {
        proof {
            lemma_valid_scale(self.wear_ratio);
        }
        let one = pow10_u64(self.wear_ratio.scale);
        if self.car_age > 0 {
            let age = self.car_age as u128;
            let excess = (self.wear_ratio.mantissa - one) as u128;
            proof {
                assert(age * excess <= u128::MAX) by (nonlinear_arith)
                    requires
                        age <= u64::MAX,
                        excess <= u64::MAX,
                ;
            }
            (age * excess, self.wear_ratio.scale)
        } else {
            (one as u128, self.wear_ratio.scale)
        }
    }
}

/// Fuel consumption at a baseline rate per 100 distance units, optionally
/// adjusted for wear.
pub struct DieselConsumption {
    avg_usage: usize,
    wear: Option<WearRatio>,
}

impl DieselConsumption {
    /// The baseline rate, fuel per 100 distance units.
    pub closed spec fn avg_usage(&self) -> nat {
        self.avg_usage as nat
    }

    /// The attached wear, as the vehicle's age and its coefficient.
    pub closed spec fn wear(&self) -> Option<(nat, WearCoefficient)> {
        match self.wear {
            Some(w) => Some((w.car_age(), w.coefficient())),
            None => None,
        }
    }

    /// Every attached wear ratio has a usable coefficient.
    pub closed spec fn wf(&self) -> bool {
        match self.wear {
            Some(w) => w.coefficient().is_valid(),
            None => true,
        }
    }

    /// A calculator at `avg_usage_per_100km`, without wear.
    pub fn new(avg_usage_per_100km: usize) -> (r: Self)
        ensures
            r.avg_usage() == avg_usage_per_100km,
            r.wear() == None::<(nat, WearCoefficient)>,
            r.wf(),
    {
        DieselConsumption { avg_usage: avg_usage_per_100km, wear: None }
    }

    /// The same calculator with `wear` attached.
    pub fn with_wear(self, wear: WearRatio) -> (r: Self)
        requires
            wear.coefficient().is_valid(),
        ensures
            r.avg_usage() == self.avg_usage(),
            r.wear() == Some((wear.car_age(), wear.coefficient())),
            r.wf(),
    {
        DieselConsumption { avg_usage: self.avg_usage, wear: Some(wear) }
    }

    /// The fuel used over `distance`, rounded to two significant digits.
    pub fn fuel_usage_at(&self, distance: usize) -> (r: Result<BigDecimal, DieselUsageCalculationError>)
        requires
            self.wf(),
        ensures
            fuel_usage_outcome(self.avg_usage() as int, distance as int, self.wear(), r),
    {
        if self.avg_usage < 1 {
            return Err(
                DieselUsageCalculationError::InvalidParams(
                    "Fuel usage per 100km cannot be less than 1".to_owned(),
                ),
            );
        }
        if distance < 1 {
            return Err(
                DieselUsageCalculationError::InvalidParams("Distance cannot be less than 1".to_owned()),
            );
        }
        let b = self.avg_usage as u128;
        let d = distance as u128;
        proof {
            assert(d * b <= u128::MAX) by (nonlinear_arith)
                requires
                    d <= u64::MAX,
                    b <= u64::MAX,
            ;
        }
        // the rate is `b * factor` at `scale`
        let (factor, scale): (u128, u8) = match &self.wear {
            None => (1, 0),
            Some(w) => {
                let (ratio, scale) = w.get_ratio();
                proof {
                    lemma_valid_scale(w.coefficient());
                }
                let one = pow10_u64(scale) as u128;
                proof {
                    let bi = b as int;
                    let ri = ratio as int;
                    let oi = one as int;
                    assert((bi * (oi + ri) > 3 * bi * oi) == (ri > 2 * oi)) by (nonlinear_arith)
                        requires
                            bi >= 1,
                    ;
                }
                // a vehicle never needs more than three times its baseline
                if ratio > 2 * one {
                    (3, 0)
                } else {
                    (one + ratio, scale)
                }
            },
        };
        proof {
            assert(d * (b * factor) == (d * b) * factor) by (nonlinear_arith);
        }
        Ok(rounded_product(d * b, factor, scale as i64 + 2, SIGNIFICANT_DIGITS))
    }
}

/// The lowest percentage a failure estimate may draw.
pub const LOWEST_FAILURE_PERCENT: u64 = 10;

/// The percentage every failure estimate stays below.
pub const FAILURE_PERCENT_BOUND: u64 = 80;

/// A number drawn uniformly from `[low, high)`.
/// Relies on `rand::thread_rng` and `Rng::gen_range`, which returns a value
/// inside the non-empty range it is given.
#[verifier::external_body]
fn draw_in_range(low: u64, high: u64) -> (r: u64)
    requires
        low < high,
    ensures
        low <= r < high,
{
    rand::thread_rng().gen_range(low..high)
}

/// What a failure estimate for `vin` returns when the estimate's percentage
/// is `percent`.
pub open spec fn failure_outcome(
    vin: Seq<char>,
    percent: int,
    r: Result<BigDecimal, UnitInjectorFailCalculationError>,
) -> bool {
    if vin.len() == 0 {
        match r {
            Err(UnitInjectorFailCalculationError::InvalidParams(m)) => m@ == "Vin cannot be empty"@,
            _ => false,
        }
    } else {
        r == Ok::<BigDecimal, UnitInjectorFailCalculationError>(
            rounded_decimal_of(percent, 2, SIGNIFICANT_DIGITS as int),
        )
    }
}

/// The failure estimate for `vin` at `percent` percent, rounded to two
/// significant digits.
pub fn failure_probability_at(vin: &str, percent: u64) -> (r: Result<
    BigDecimal,
    UnitInjectorFailCalculationError,
>)
    ensures
        failure_outcome(vin@, percent as int, r),
{
    if vin.is_empty() {
        return Err(UnitInjectorFailCalculationError::InvalidParams("Vin cannot be empty".to_owned()));
    }
    proof {
        assert(percent * 1 == percent);
    }
    Ok(rounded_product(percent as u128, 1, 2, SIGNIFICANT_DIGITS))
}

/// A failure estimator that draws a probability in `[0.10, 0.80)`.
pub struct UnitInjectorRandomCalc;

impl UnitInjectorFailProbabilityCalculator for UnitInjectorRandomCalc {
    fn calc_failure_probability(&self, vin: &str) -> (r: Result<
        BigDecimal,
        UnitInjectorFailCalculationError,
    >)
        ensures
            exists|percent: int| 10 <= percent < 80 && failure_outcome(vin@, percent, r),
    {
        if vin.is_empty() {
            // nothing is drawn for an empty number; the percentage goes unused
            let r = failure_probability_at(vin, 10);
            assert(failure_outcome(vin@, 10, r));
            return r;
        }
        let percent = draw_in_range(LOWEST_FAILURE_PERCENT, FAILURE_PERCENT_BOUND);
        let r = failure_probability_at(vin, percent);
        assert(failure_outcome(vin@, percent as int, r));
        r
    }
}

} // verus!
