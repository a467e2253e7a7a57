//! Immutable client configuration shared by all holders of a session.

use vstd::prelude::*;

verus! {

/// Limits applied when establishing and using a connection.
#[derive(Clone, Debug, PartialEq)]
pub struct ConnectionConfig {
    /// Upper bound, in bytes, on the size of a decoded inbound message.
    pub max_decoding_message_size: usize,
    /// Seconds allowed for establishing the connection.
    pub connect_timeout: u64,
    /// Seconds allowed for completing a request.
    pub request_timeout: u64,
}

/// Configuration of a streaming client: connection limits and feature toggles.
/// Immutable after construction.
#[derive(Clone, Debug, PartialEq)]
pub struct ClientConfig {
    /// Limits applied to the underlying connection.
    pub connection: ConnectionConfig,
    /// Whether metric collection is enabled.
    pub enable_metrics: bool,
}

} // verus!
