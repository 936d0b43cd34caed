//! Connection settings for the message broker, assembled by a builder.
//!
//! Durations are carried as whole milliseconds so that every field is a plain
//! value; the layer that opens the real connection turns them back into its
//! own duration type.

use vstd::prelude::*;

verus! {

/// How to reach and hold a broker connection. `new` fills in the defaults;
/// the `with_` builders override one field each.
pub struct NatsConfig {
    pub url: String,
    pub connection_name: Option<String>,
    pub auth_token: Option<String>,
    pub username: Option<String>,
    pub password: Option<String>,
    pub connect_timeout: Option<u64>,
    pub reconnect_buffer_size: Option<usize>,
    pub max_reconnects: Option<usize>,
    pub reconnect_wait: Option<u64>,
    pub jetstream_enabled: bool,
    pub domain: Option<String>,
}

impl NatsConfig {
    /// A configuration for `url` with the defaults: a 5 second connect
    /// timeout, an 8 MiB reconnect buffer, up to 60 reconnects 2 seconds
    /// apart, JetStream enabled, and no credentials.
    pub fn new(url: String) -> (r: Self)
        ensures
            r.url == url,
            r.connection_name is None,
            r.auth_token is None,
            r.username is None,
            r.password is None,
            r.connect_timeout == Some(5000u64),
            r.reconnect_buffer_size == Some(8388608usize),
            r.max_reconnects == Some(60usize),
            r.reconnect_wait == Some(2000u64),
            r.jetstream_enabled == true,
            r.domain is None,
    {
        NatsConfig {
            url,
            connection_name: None,
            auth_token: None,
            username: None,
            password: None,
            connect_timeout: Some(5000),
            reconnect_buffer_size: Some(8 * 1024 * 1024),
            max_reconnects: Some(60),
            reconnect_wait: Some(2000),
            jetstream_enabled: true,
            domain: None,
        }
    }

    pub fn with_connection_name(self, name: String) -> (r: Self)
        ensures
            r == (NatsConfig { connection_name: Some(name), ..self }),
    {
        NatsConfig { connection_name: Some(name), ..self }
    }

    pub fn with_auth_token(self, token: String) -> (r: Self)
        ensures
            r == (NatsConfig { auth_token: Some(token), ..self }),
    {
        NatsConfig { auth_token: Some(token), ..self }
    }

    pub fn with_credentials(self, username: String, password: String) -> (r: Self)
        ensures
            r == (NatsConfig { username: Some(username), password: Some(password), ..self }),
    {
        NatsConfig { username: Some(username), password: Some(password), ..self }
    }

    /// Override the connect timeout, in milliseconds.
    pub fn with_connect_timeout(self, timeout: u64) -> (r: Self)
        ensures
            r == (NatsConfig { connect_timeout: Some(timeout), ..self }),
    {
        NatsConfig { connect_timeout: Some(timeout), ..self }
    }

    pub fn with_reconnect_buffer_size(self, size: usize) -> (r: Self)
        ensures
            r == (NatsConfig { reconnect_buffer_size: Some(size), ..self }),
    {
        NatsConfig { reconnect_buffer_size: Some(size), ..self }
    }

    pub fn with_max_reconnects(self, max: usize) -> (r: Self)
        ensures
            r == (NatsConfig { max_reconnects: Some(max), ..self }),
    {
        NatsConfig { max_reconnects: Some(max), ..self }
    }

    /// Override the wait between reconnects, in milliseconds.
    pub fn with_reconnect_wait(self, wait: u64) -> (r: Self)
        ensures
            r == (NatsConfig { reconnect_wait: Some(wait), ..self }),
    {
        NatsConfig { reconnect_wait: Some(wait), ..self }
    }

    pub fn with_jetstream(self, enabled: bool) -> (r: Self)
        ensures
            r == (NatsConfig { jetstream_enabled: enabled, ..self }),
    {
        NatsConfig { jetstream_enabled: enabled, ..self }
    }

    pub fn with_domain(self, domain: String) -> (r: Self)
        ensures
            r == (NatsConfig { domain: Some(domain), ..self }),
    {
        NatsConfig { domain: Some(domain), ..self }
    }
}

} // verus!
