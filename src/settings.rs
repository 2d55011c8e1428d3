//! The node's compiled-in parameters.
use vstd::prelude::*;
use vstd::string::*;

verus! {

/// How the dissemination overlay and the transports are set up.
pub struct NodeSettings {
    /// The single chat topic.
    pub topic: String,
    /// Seconds between overlay heartbeats.
    pub heartbeat_secs: u64,
    /// Reject every message without a valid signature from its originator.
    pub strict_validation: bool,
    /// Sign every published message with the node's identity.
    pub sign_messages: bool,
    /// Seconds an idle connection is kept: in effect, forever.
    pub idle_timeout_secs: u64,
    /// Datagram (QUIC) listener, any interface, port chosen by the system.
    pub quic_listen: String,
    /// Stream (TCP) listener, any interface, port chosen by the system.
    pub tcp_listen: String,
}

pub const HEARTBEAT_SECS: u64 = 10;

pub fn node_settings() -> (r: NodeSettings)
    ensures
        r.topic@ == "test-net"@,
        r.heartbeat_secs == HEARTBEAT_SECS,
        r.strict_validation,
        r.sign_messages,
        r.idle_timeout_secs == u64::MAX,
        r.quic_listen@ == "/ip4/0.0.0.0/udp/0/quic-v1"@,
        r.tcp_listen@ == "/ip4/0.0.0.0/tcp/0"@,
{
    NodeSettings {
        topic: String::from_str("test-net"),
        heartbeat_secs: HEARTBEAT_SECS,
        strict_validation: true,
        sign_messages: true,
        idle_timeout_secs: u64::MAX,
        quic_listen: String::from_str("/ip4/0.0.0.0/udp/0/quic-v1"),
        tcp_listen: String::from_str("/ip4/0.0.0.0/tcp/0"),
    }
}

} // verus!
