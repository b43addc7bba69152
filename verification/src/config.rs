//! The configuration surface: where each role binds, whom the client calls,
//! and the two transport settings that an endpoint is made with.

use crate::address::loopback_v4;
use crate::address::SocketAddress;
use vstd::prelude::*;
use vstd::string::StringExecFns;

verus! {

/// The port that the server listens on and the client calls by default.
pub const DEFAULT_PORT: u16 = 4433;

/// How many bidirectional streams a peer may have open at once by default.
pub const DEFAULT_MAX_CONCURRENT_STREAMS: u32 = 100;

/// The default pause, in seconds, between two keep-alive probes.
pub const DEFAULT_KEEP_ALIVE_SECS: u64 = 5;

/// The name that the server's identity is issued for and that the client
/// expects: `localhost`.
pub open spec fn default_server_name() -> Seq<char> {
    seq!['l', 'o', 'c', 'a', 'l', 'h', 'o', 's', 't']
}

/// The settings of the listening role.
#[derive(Clone, Copy, Debug, PartialEq, Eq, Structural)]
pub struct ServerConfig {
    /// The address to listen on.
    pub bind_addr: SocketAddress,
    /// How many bidirectional streams a peer may have open at once.
    pub max_concurrent_streams: u32,
    /// Seconds between keep-alive probes; zero sends none.
    pub keep_alive_interval_secs: u64,
}

/// The settings of the connecting role.
#[derive(Clone, Debug)]
pub struct ClientConfig {
    /// The local address to bind; port zero lets the system choose.
    pub bind_addr: SocketAddress,
    /// The address of the server to call.
    pub server_addr: SocketAddress,
    /// The name that the server is expected to present.
    pub server_name: String,
    /// Seconds between keep-alive probes; zero sends none.
    pub keep_alive_interval_secs: u64,
}

impl ServerConfig {
    /// The keep-alive interval to hand to the transport: none when the
    /// setting is zero, else that many seconds.
    pub fn keep_alive(&self) -> (interval: Option<u64>)
        ensures
            interval == keep_alive_of(self.keep_alive_interval_secs),
    {
        keep_alive_from(self.keep_alive_interval_secs)
    }
}

impl ClientConfig {
    /// The keep-alive interval to hand to the transport: none when the
    /// setting is zero, else that many seconds.
    pub fn keep_alive(&self) -> (interval: Option<u64>)
        ensures
            interval == keep_alive_of(self.keep_alive_interval_secs),
    {
        keep_alive_from(self.keep_alive_interval_secs)
    }
}

/// The keep-alive interval that a setting of `secs` seconds stands for.
pub open spec fn keep_alive_of(secs: u64) -> Option<u64> {
    if secs == 0 {
        None
    } else {
        Some(secs)
    }
}

fn keep_alive_from(secs: u64) -> (interval: Option<u64>)
    ensures
        interval == keep_alive_of(secs),
{
    if secs == 0 {
        None
    } else {
        Some(secs)
    }
}

impl Default for ServerConfig {
    /// Loopback on the default port, a hundred streams, five seconds.
    fn default() -> (config: Self)
        ensures
            config.bind_addr == (SocketAddress { ip: loopback_v4(), port: DEFAULT_PORT }),
            config.max_concurrent_streams == DEFAULT_MAX_CONCURRENT_STREAMS,
            config.keep_alive_interval_secs == DEFAULT_KEEP_ALIVE_SECS,
    {
        ServerConfig {
            bind_addr: SocketAddress::loopback(DEFAULT_PORT),
            max_concurrent_streams: DEFAULT_MAX_CONCURRENT_STREAMS,
            keep_alive_interval_secs: DEFAULT_KEEP_ALIVE_SECS,
        }
    }
}

impl Default for ClientConfig {
    /// A system-chosen loopback port, calling `localhost` on loopback at the
    /// default port, five seconds.
    fn default() -> (config: Self)
        ensures
            config.bind_addr == (SocketAddress { ip: loopback_v4(), port: 0 }),
            config.server_addr == (SocketAddress { ip: loopback_v4(), port: DEFAULT_PORT }),
            config.server_name@ == default_server_name(),
            config.keep_alive_interval_secs == DEFAULT_KEEP_ALIVE_SECS,
    {
        let server_name = String::from_str("localhost");
        proof {
            reveal_strlit("localhost");
            assert("localhost"@ =~= default_server_name());
        }
        ClientConfig {
            bind_addr: SocketAddress::loopback(0),
            server_addr: SocketAddress::loopback(DEFAULT_PORT),
            server_name,
            keep_alive_interval_secs: DEFAULT_KEEP_ALIVE_SECS,
        }
    }
}

} // verus!
