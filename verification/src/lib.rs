//! Status normalisation and lifecycle validation for a payment gateway
//! connector: gateway statuses are mapped into the canonical vocabulary,
//! inbound payloads are resolved into one envelope shape, dispute transitions
//! are checked for monotonicity, and resolved updates are merged into the
//! stored record.

pub mod consts;
pub mod enums;
pub mod errors;
pub mod metrics;
pub mod utils;
pub mod types;
pub mod transformers;
pub mod resolver;
pub mod requests;
pub mod flows;
pub mod payouts;
