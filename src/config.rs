//! Configuration of the bridge's listening socket.
use vstd::prelude::*;

verus! {

/// Address that the server listens on unless told otherwise (all interfaces).
pub open spec fn default_bind_address() -> Seq<char> {
    "0.0.0.0"@
}

/// Address for a server reachable from this machine only.
pub open spec fn localhost_address() -> Seq<char> {
    "127.0.0.1"@
}

/// Configuration of the bridge.
#[derive(Clone, Debug)]
pub struct Config {
    /// Address to bind the server to.
    pub bind_address: String,
    /// Explicit port: `Some` means exactly this port or failure; `None` means
    /// the first free port of the scanned range.
    pub port: Option<u16>,
}

impl Default for Config {
    fn default() -> (r: Self)
        ensures
            r.bind_address@ == default_bind_address(),
            r.port is None,
    {
        Config { bind_address: String::from_str("0.0.0.0"), port: None }
    }
}

impl Config {
    /// A configuration that binds to `bind_address` and picks its port itself.
    pub fn new(bind_address: &str) -> (r: Self)
        ensures
            r.bind_address@ == bind_address@,
            r.port is None,
    {
        Config { bind_address: String::from_str(bind_address), port: None }
    }

    /// A configuration that binds to the loopback address only.
    pub fn localhost_only() -> (r: Self)
        ensures
            r.bind_address@ == localhost_address(),
            r.port is None,
    {
        Config { bind_address: String::from_str("127.0.0.1"), port: None }
    }
}

/// Builder for a configured bridge.
pub struct Builder {
    config: Config,
}

impl Builder {
    /// The configuration that the builder holds.
    pub closed spec fn spec_config(&self) -> Config {
        self.config
    }

    /// A builder holding the default configuration.
    pub fn new() -> (r: Self)
        ensures
            r.spec_config().bind_address@ == default_bind_address(),
            r.spec_config().port is None,
    {
        Builder { config: Config::default() }
    }

    /// Sets the address to bind to; the port setting is kept.
    pub fn bind_address(self, addr: &str) -> (r: Self)
        ensures
            r.spec_config().bind_address@ == addr@,
            r.spec_config().port == self.spec_config().port,
    {
        let mut b = self;
        b.config.bind_address = String::from_str(addr);
        b
    }

    /// Sets an explicit port (strict mode); the address is kept.
    pub fn port(self, port: u16) -> (r: Self)
        ensures
            r.spec_config().port == Some(port),
            r.spec_config().bind_address@ == self.spec_config().bind_address@,
    {
        let mut b = self;
        b.config.port = Some(port);
        b
    }

    /// The configuration built so far.
    pub fn config(&self) -> (r: &Config)
        ensures
            *r == self.spec_config(),
    {
        &self.config
    }

    /// Ends the builder and hands out its configuration.
    pub fn into_config(self) -> (r: Config)
        ensures
            r == self.spec_config(),
    {
        self.config
    }
}

impl Default for Builder {
    fn default() -> (r: Self)
        ensures
            r.spec_config().bind_address@ == default_bind_address(),
            r.spec_config().port is None,
    {
        Builder::new()
    }
}

} // verus!
