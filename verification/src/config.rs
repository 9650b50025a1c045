//! Client configuration: the identifiers and feature settings sent to
//! the server in the IDENTIFY handshake. The codec treats the serialized
//! form as an opaque payload; this type only holds the values.

use vstd::prelude::*;
use vstd::string::StringExecFns;

verus! {

/// Identifiers and feature settings representing this client.
#[derive(Clone, Debug, PartialEq)]
pub struct Config {
    /// Identifiers sent to the server representing this client. They
    /// start unset; callers that want machine-derived identifiers set
    /// them through the builder methods.
    pub client_id: Option<String>,
    pub short_id: Option<String>,
    pub long_id: Option<String>,
    pub hostname: Option<String>,
    pub user_agent: String,
    /// Enable deflate compression.
    pub deflate: bool,
    pub deflate_level: u16,
    /// Enable snappy compression.
    pub snappy: bool,
    pub feature_negotiation: bool,
    /// Milliseconds between heartbeats.
    pub heartbeat_interval: i64,
    /// Timeout used by the server before flushing buffered writes to this
    /// connection (0 disables it).
    pub message_timeout: u32,
    /// Size in bytes of the server-side buffer for writes to this
    /// connection.
    pub output_buffer_size: u64,
    pub output_buffer_timeout: u32,
    /// Integer percentage at which to sample the channel.
    pub sample_rate: u16,
    /// Enable TLS negotiation.
    pub tls_v1: bool,
}

impl Config {
    /// The stock configuration: no identifiers, negotiation on, no
    /// compression, a 30-second heartbeat.
    pub open spec fn is_stock(self) -> bool {
        &&& self.client_id is None
        &&& self.short_id is None
        &&& self.long_id is None
        &&& self.hostname is None
        &&& self.user_agent@ == "nsqueue"@
        &&& self.deflate == false
        &&& self.deflate_level == 6
        &&& self.snappy == false
        &&& self.feature_negotiation == true
        &&& self.heartbeat_interval == 30000
        &&& self.message_timeout == 0
        &&& self.output_buffer_size == 16384
        &&& self.output_buffer_timeout == 250
        &&& self.sample_rate == 0
        &&& self.tls_v1 == false
    }

    /// A configuration with the stock values.
    pub fn new() -> (c: Config)
        ensures
            c.is_stock(),
    {
        Config {
            client_id: None,
            short_id: None,
            long_id: None,
            hostname: None,
            user_agent: String::from_str("nsqueue"),
            deflate: false,
            deflate_level: 6,
            snappy: false,
            feature_negotiation: true,
            heartbeat_interval: 30000,
            message_timeout: 0,
            output_buffer_size: 16384,
            output_buffer_timeout: 250,
            sample_rate: 0,
            tls_v1: false,
        }
    }

    /// Set the client id, builder style.
    pub fn client_id(self, client_id: String) -> (c: Config)
        ensures
            c == (Config { client_id: Some(client_id), ..self }),
    {
        let mut c = self;
        c.client_id = Some(client_id);
        c
    }

    /// Set the hostname, builder style.
    pub fn hostname(self, hostname: String) -> (c: Config)
        ensures
            c == (Config { hostname: Some(hostname), ..self }),
    {
        let mut c = self;
        c.hostname = Some(hostname);
        c
    }

    /// Set the user agent, builder style.
    pub fn user_agent(self, user_agent: String) -> (c: Config)
        ensures
            c == (Config { user_agent, ..self }),
    {
        let mut c = self;
        c.user_agent = user_agent;
        c
    }

    /// Enable or disable snappy compression, builder style.
    pub fn snappy(self, snappy: bool) -> (c: Config)
        ensures
            c == (Config { snappy, ..self }),
    {
        let mut c = self;
        c.snappy = snappy;
        c
    }
}

impl Default for Config {
    /// The stock configuration, as [`Config::new`] builds it.
    fn default() -> (c: Config)
        ensures
            c.is_stock(),
    {
        Config::new()
    }
}

} // verus!
