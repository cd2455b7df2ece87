//! The core of a reverse HTTP tunnel: message model, authentication,
//! client-address extraction, and the decisions that the public server and
//! the private client take for every message and request.

use std::time::{SystemTime, UNIX_EPOCH};
use vstd::prelude::*;

pub mod body;
pub mod client;
pub mod error;
pub mod server;
pub mod text;
pub mod tunnel;

verus! {

/// `SystemTime::now` and `duration_since(UNIX_EPOCH)`: the whole seconds
/// that the system clock is past the Unix epoch, or nothing where the clock
/// is set before it. Nothing is promised of the value: two calls may differ,
/// and the clock may be wrong.
#[verifier::external_body]
fn clock() -> (seconds: Option<u64>) {
    match SystemTime::now().duration_since(UNIX_EPOCH) {
        Ok(elapsed) => Some(elapsed.as_secs()),
        Err(_) => None,
    }
}

/// The system clock in whole seconds since the Unix epoch. A clock that is
/// set before the epoch reads as zero.
pub fn now_as_secs() -> u64 {
    match clock() {
        Some(seconds) => seconds,
        None => 0,
    }
}

} // verus!
