//! Verified core of a bridge between an asynchronous push-notification
//! client and a consumer that can only receive callbacks and integer tokens.
use vstd::prelude::*;

pub mod bridge;
pub mod gateway;
pub mod handles;
pub mod phase;
pub mod receive;

verus! {

} // verus!
