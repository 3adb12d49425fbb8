//! Confidential commitments, blinding-factor balancing and the decision logic
//! of a two-party confidential asset swap.

pub mod codec;
pub mod confidential;
pub mod scalar;
pub mod rate;
pub mod json_rpc;
pub mod protocol;
pub mod funding;
