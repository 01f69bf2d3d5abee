//! Vehicle diagnostics: wear-adjusted diesel consumption over a distance and
//! unit-injector failure estimates, with the outcome of every calculation
//! stated as a contract.

pub mod calculation_errors;
pub mod calculation_traits;
pub mod calculators;
pub mod decimal;
pub mod app_state;
