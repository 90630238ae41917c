//! What the service is configured with.

use vstd::prelude::*;
use vstd::string::StringExecFns;

verus! {

/// The host that the service listens on.
pub const HOST: &'static str = "127.0.0.1";

/// The port that the service listens on where none is configured.
pub const DEFAULT_PORT: &'static str = "8080";

/// The port to listen on: the configured one, or the default.
pub open spec fn port_or_default(port: Option<String>) -> Seq<char> {
    match port {
        Some(configured) => configured@,
        None => DEFAULT_PORT@,
    }
}

/// The address to listen on: the host, a colon, and the configured port or the default.
pub fn listen_address(port: Option<String>) -> (addr: String)
    ensures
        addr@ == HOST@ + ":"@ + port_or_default(port),
{
    let host = String::from_str(HOST).concat(":");
    match port {
        Some(configured) => host.concat(configured.as_str()),
        None => host.concat(DEFAULT_PORT),
    }
}

} // verus!
