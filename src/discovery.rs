//! Choosing the port the server listens on, so that several applications can
//! run side by side on one machine.
use vstd::prelude::*;
use crate::config::Config;
use crate::text::{decimal, decimal_string};

verus! {

/// First port of the scanned range.
pub const BASE_PORT: u16 = 9223;

/// Number of ports scanned.
pub const MAX_ATTEMPTS: u16 = 100;

/// Scans ports `BASE_PORT ..` upwards and returns the first one that
/// `is_port_available` reports free on `bind_address`; where none of the
/// `MAX_ATTEMPTS` ports is free, returns `BASE_PORT`.
pub fn find_available_port<F: Fn(&str, u16) -> bool>(bind_address: &str, is_port_available: F) -> (r: u16)
    requires
        forall|p: u16| is_port_available.requires((bind_address, p)),
    ensures
        BASE_PORT <= r < BASE_PORT + MAX_ATTEMPTS,
        forall|p: u16| BASE_PORT <= p < r ==> is_port_available.ensures((bind_address, p), false),
        is_port_available.ensures((bind_address, r), true) || (r == BASE_PORT && forall|p: u16|
            BASE_PORT <= p < BASE_PORT + MAX_ATTEMPTS ==> is_port_available.ensures((bind_address, p), false)),
{
    let mut offset: u16 = 0;
    while offset < MAX_ATTEMPTS
        invariant
            offset <= MAX_ATTEMPTS,
            forall|p: u16| is_port_available.requires((bind_address, p)),
            forall|p: u16| BASE_PORT <= p < BASE_PORT + offset ==> is_port_available.ensures((bind_address, p), false),
        decreases MAX_ATTEMPTS - offset,
    {
        let port = BASE_PORT + offset;
        if is_port_available(bind_address, port) {
            return port;
        }
        offset = offset + 1;
    }
    BASE_PORT
}

/// A port that was configured explicitly is in use.
#[derive(Debug)]
pub struct PortUnavailable {
    pub port: u16,
    pub bind_address: String,
}

/// Message for an explicit port that is in use.
pub open spec fn unavailable_message(port: u16, bind_address: Seq<char>) -> Seq<char> {
    "MCP Bridge: Port "@ + decimal(port as nat) + " on "@ + bind_address
        + " is unavailable. This port was explicitly configured - not scanning for alternatives. Ensure no other application is using this port, or choose a different port."@
}

impl PortUnavailable {
    /// The message that explains the failure.
    pub fn message(&self) -> (r: String)
        ensures
            r@ == unavailable_message(self.port, self.bind_address@),
    {
        String::from_str("MCP Bridge: Port ").concat(decimal_string(self.port as u64).as_str()).concat(" on ").concat(
            self.bind_address.as_str(),
        ).concat(
            " is unavailable. This port was explicitly configured - not scanning for alternatives. Ensure no other application is using this port, or choose a different port.",
        )
    }
}

/// Uses exactly `port` (strict mode): fails where `is_port_available`
/// reports it taken, rather than falling back to another port.
pub fn use_explicit_port_or_fail<F: Fn(&str, u16) -> bool>(bind_address: &str, port: u16, is_port_available: F) -> (r: Result<u16, PortUnavailable>)
    requires
        is_port_available.requires((bind_address, port)),
    ensures
        r matches Ok(p) ==> p == port && is_port_available.ensures((bind_address, port), true),
        r matches Err(e) ==> e.port == port && e.bind_address@ == bind_address@
            && is_port_available.ensures((bind_address, port), false),
{
    if is_port_available(bind_address, port) {
        Ok(port)
    } else {
        Err(PortUnavailable { port, bind_address: String::from_str(bind_address) })
    }
}

/// The port for `config`: its explicit port in strict mode, or the first free
/// port of the scanned range.
pub fn select_port<F: Fn(&str, u16) -> bool>(config: &Config, is_port_available: F) -> (r: Result<u16, PortUnavailable>)
    requires
        forall|a: &str, p: u16| a@ == config.bind_address@ ==> is_port_available.requires((a, p)),
    ensures
        match config.port {
            Some(p) => match r {
                Ok(q) => q == p && exists|a: &str| a@ == config.bind_address@
                    && is_port_available.ensures((a, p), true),
                Err(e) => e.port == p && e.bind_address@ == config.bind_address@
                    && exists|a: &str| a@ == config.bind_address@ && is_port_available.ensures((a, p), false),
            },
            None => r matches Ok(q) && BASE_PORT <= q < BASE_PORT + MAX_ATTEMPTS,
        },
{
    match config.port {
        Some(p) => use_explicit_port_or_fail(config.bind_address.as_str(), p, is_port_available),
        None => Ok(find_available_port(config.bind_address.as_str(), is_port_available)),
    }
}

} // verus!
