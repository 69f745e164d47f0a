use vstd::prelude::*;

verus! {

/// The port served on when none is configured.
pub const DEFAULT_PORT: u16 = 3000;

/// The seconds between two liveness pings of a session.
pub const PING_INTERVAL_SECS: u64 = 15;

/// What the server declares it can do.
#[derive(Clone, Copy, Debug, PartialEq, Eq, Structural)]
pub struct ServerCapabilities {
    pub tools_supported: bool,
}

/// The server's answer to every initialize handshake, fixed at startup.
#[derive(Debug)]
pub struct ServerIdentity {
    pub name: String,
    pub version: String,
    pub protocol_version: String,
    pub capabilities: ServerCapabilities,
    pub instructions: Option<String>,
}

/// Where and how the transport serves sessions.
#[derive(Debug)]
pub struct ServerOptions {
    pub host: String,
    pub port: u16,
    pub ping_interval_secs: u64,
}

/// The identity of this server, speaking `protocol_version`: it offers
/// tools and says what it is for.
pub fn server_details(protocol_version: String) -> (r: ServerIdentity)
    ensures
        r.name@ == "Notify MCP Server"@,
        r.version@ == "0.1.0"@,
        r.protocol_version@ == protocol_version@,
        r.capabilities.tools_supported,
        r.instructions matches Some(s) && s@ == "MCP server for sending desktop notifications"@,
{
    ServerIdentity {
        name: String::from_str("Notify MCP Server"),
        version: String::from_str("0.1.0"),
        protocol_version,
        capabilities: ServerCapabilities { tools_supported: true },
        instructions: Some(String::from_str("MCP server for sending desktop notifications")),
    }
}

/// Serving options on every interface at `port`, with the fixed ping
/// interval.
pub fn server_options(port: u16) -> (r: ServerOptions)
    ensures
        r.host@ == "0.0.0.0"@,
        r.port == port,
        r.ping_interval_secs == PING_INTERVAL_SECS,
{
    ServerOptions {
        host: String::from_str("0.0.0.0"),
        port,
        ping_interval_secs: PING_INTERVAL_SECS,
    }
}

} // verus!
