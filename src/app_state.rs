use std::sync::Arc;
use vstd::prelude::*;

use crate::calculation_traits::{DieselUsageCalculator, UnitInjectorFailProbabilityCalculator};

verus! {

/// The shared state of the consumption endpoint: the calculator it delegates to.
pub struct UsageCalcState {
    pub diesel_usage_calculator: Arc<dyn DieselUsageCalculator>,
}

/// The shared state of the failure-estimate endpoint: the estimator it delegates to.
pub struct FailCalcState {
    pub injector_fail_calculator: Arc<dyn UnitInjectorFailProbabilityCalculator>,
}

} // verus!
