//! Control plane for a supervised local HTTP sidecar.
//!
//! The library models the supervisor that keeps at most one child process
//! alive, the session that owns the per-run bearer token, the advertised-URL
//! construction, the authenticated request forwarder, and the stdio pump that
//! relays child output. Process, socket and HTTP plumbing live outside the
//! library and act only on the decisions verified here.

use vstd::prelude::*;

pub mod address;
pub mod fetch;
pub mod pump;
pub mod session;
pub mod supervisor;

verus! {

} // verus!
