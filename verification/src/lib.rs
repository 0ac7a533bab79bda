//! Verified change-output handling for consensus-encoded transactions.
//!
//! Given a partially built transaction, a total input value, a target
//! feerate and a destination script, the library decides whether a change
//! output can be appended while still paying at least the requested
//! feerate, and appends it when it can.

pub mod btc;
pub mod model;
pub mod transaction_utils;

pub use model::MAX_VALUE_MSAT;
pub use transaction_utils::get_dust_value;
pub use transaction_utils::maybe_add_change_output;
pub use transaction_utils::InfeasibleFeerate;
