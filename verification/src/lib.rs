//! Verified core of a local signing gateway.
//!
//! The library models the signing subsystem of a gateway that relays calls
//! to a remote content platform: an out-of-process signing engine supervised
//! through an explicit lifecycle state machine, a fallback cache of
//! last-known-good signature headers, a two-tier signature resolution
//! strategy, and the response classification and retry policy of the
//! outbound client.  All decision logic lives here and is verified; process
//! spawning, HTTP and timers are driven by a thin unverified shell.

pub mod backoff;
pub mod cache;
pub mod client;
pub mod errors;
pub mod fingerprint;
pub mod headers;
pub mod request;
pub mod service;
pub mod supervisor;

use vstd::prelude::*;

verus! {

} // verus!
