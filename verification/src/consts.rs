use vstd::prelude::*;

verus! {

/// Number of random characters in a generated identifier.
pub const ID_LENGTH: usize = 20;

/// Largest byte length accepted for a caller-supplied identifier.
pub const MAX_ID_LENGTH: usize = 64;

/// Byte length of a hyphenated UUID string.
pub const UUID_LENGTH: usize = 36;

/// Request reference of a flow that has no attempt behind it.
pub const IRRELEVANT_CONNECTOR_REQUEST_REFERENCE_ID_IN_DISPUTE_FLOW: &'static str =
    "irrelevant_connector_request_reference_id_in_dispute_flow";

/// Payment id of a flow that has no payment behind it.
pub const IRRELEVANT_PAYMENT_ID_IN_DISPUTE_FLOW: &'static str =
    "irrelevant_payment_id_in_dispute_flow";

/// Attempt id of a flow that has no attempt behind it.
pub const IRRELEVANT_ATTEMPT_ID_IN_DISPUTE_FLOW: &'static str =
    "irrelevant_attempt_id_in_dispute_flow";

} // verus!
