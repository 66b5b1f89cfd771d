//! Relay configuration decisions.
//!
//! The relay runs in one of two modes: direct, connecting straight to the
//! target, or proxied, reaching the target through a SOCKS5 proxy with
//! optional username/password authentication. The rules here turn the
//! optional command-line values into that mode, and decide the startup
//! privilege check that probe loading requires.

use vstd::prelude::*;

verus! {

/// How to reach the target through a SOCKS5 proxy.
#[derive(Clone, Debug)]
pub struct ProxyConfig {
    /// The proxy endpoint, as `host:port`.
    pub address: String,
    /// Username and password for the proxy, or nothing for no-auth.
    pub credential: Option<(String, String)>,
}

/// The credential the optional flags denote: a user with a password is
/// taken as given; a user without a password gets the empty password; no
/// user means no authentication, whatever the password flag held.
pub open spec fn credential_of(user: Option<String>, pass: Option<String>) -> Option<
    (Seq<char>, Seq<char>),
> {
    match (user, pass) {
        (Some(u), Some(p)) => Some((u@, p@)),
        (Some(u), None) => Some((u@, Seq::<char>::empty())),
        _ => None,
    }
}

/// Build the proxy credential from the optional flag values.
pub fn make_credential(user: Option<String>, pass: Option<String>) -> (r: Option<(String, String)>)
    ensures
        match r {
            Some(c) => credential_of(user, pass) == Some((c.0@, c.1@)),
            None => credential_of(user, pass) is None,
        },
{
    match (user, pass) {
        (Some(u), Some(p)) => Some((u, p)),
        (Some(u), None) => Some((u, String::new())),
        (None, _) => None,
    }
}

/// The relay's mode: direct to the target, or through a SOCKS5 proxy.
pub enum RelayMode {
    Direct,
    Proxied(ProxyConfig),
}

/// Pick the relay mode from the optional flags: a proxy address selects
/// the proxied mode with the credential the user and password flags
/// denote; no proxy address means direct, and the credential flags are
/// ignored.
pub fn relay_mode(proxy_addr: Option<String>, user: Option<String>, pass: Option<String>) -> (r:
    RelayMode)
    ensures
        proxy_addr is None ==> r is Direct,
        proxy_addr matches Some(a) ==> ({
            &&& r is Proxied
            &&& r->Proxied_0.address@ == a@
            &&& match r->Proxied_0.credential {
                Some(c) => credential_of(user, pass) == Some((c.0@, c.1@)),
                None => credential_of(user, pass) is None,
            }
        }),
{
    match proxy_addr {
        None => RelayMode::Direct,
        Some(address) => RelayMode::Proxied(
            ProxyConfig { address, credential: make_credential(user, pass) },
        ),
    }
}

/// Whether the process may load and attach the probe: only the superuser
/// can, so the effective user id must be zero.
pub fn privilege_ok(euid: u32) -> (r: bool)
    ensures
        r == (euid == 0),
{
    euid == 0
}

} // verus!
