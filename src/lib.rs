//! Resolution engine for prediction markets: staking votes while a market is
//! open, reading an external price signal once it has closed, contested
//! stakes that extend the deadline, and the blend of signal and community
//! tally into one final outcome.
mod contract;
pub mod laws;
mod oracle;
mod pairs;
mod resolution;
mod types;

pub use contract::{PredictifyHybrid, DISPUTE_EXTENSION, MIN_DISPUTE_STAKE};
pub use oracle::{oracle_outcome, price_outcome, OracleInterface, PythOracle, PYTH_FIXED_PRICE};
pub use resolution::{community_tally, count_votes, final_outcome_of};
pub use types::{Error, Market, OracleConfig, OracleProvider, PythPrice};
