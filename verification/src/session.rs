//! The per-run session: the bearer token and what is derived from it.
//!
//! A session mints one random token at startup and never changes it. Every
//! spawned child receives the token through its environment, and the
//! advertised URL carries it as the `token=` query value.

use vstd::prelude::*;
use crate::address::{address_chars, is_canonical_uuid, server_address};
use crate::supervisor::Supervisor;

verus! {

/// Relies on `uuid::Uuid::new_v4` and `Uuid`'s `Display`: the textual form
/// of a freshly minted UUID is the canonical hyphenated lowercase form.
#[verifier::external_body]
pub(crate) fn generate_token() -> (r: String)
    ensures
        is_canonical_uuid(r@),
{
    uuid::Uuid::new_v4().to_string()
}

/// The per-run session state. The token is fixed at construction and holds
/// for the life of the process.
pub struct Session {
    pub token: String,
}

impl Session {
    /// Mint a fresh session with a random canonical UUID token.
    pub fn new() -> (s: Session)
        ensures
            is_canonical_uuid(s.token@),
    {
        Session { token: generate_token() }
    }

    /// A session with a caller-chosen token.
    pub fn with_token(token: String) -> (s: Session)
        ensures
            s.token == token,
    {
        Session { token }
    }

    /// The supervisor for this session: idle, childless, and bound to the
    /// session token, so every child it ever spawns receives this token.
    pub fn make_supervisor(&self) -> (sup: Supervisor)
        ensures
            !sup.is_live,
            !sup.has_child,
            sup.token@ == self.token@,
    {
        Supervisor::new(self.token.clone())
    }

    /// The advertised URL, `http://<ipv4>:9090?token=<token>`, built from
    /// whatever the address probe reported; `None` exactly when the probe
    /// failed.
    pub fn get_server_address(&self, probed_ip: Option<&str>) -> (r: Option<String>)
        ensures
            match probed_ip {
                Some(ip) => r matches Some(url) && url@ == address_chars(ip@, self.token@),
                None => r is None,
            },
    {
        match probed_ip {
            Some(ip) => Some(server_address(ip, self.token.as_str())),
            None => None,
        }
    }
}

} // verus!
