//! Process configuration: the protocol version and network timeouts read by
//! every request builder and pool instantiation.  The configuration is a
//! value; the surrounding application owns the process-wide snapshot and
//! replaces it wholesale through [`set_config`].

use vstd::prelude::*;
use crate::error::ErrorCode;

verus! {

/// The ledger protocol version a request builder stamps into request bodies.
#[derive(Debug, Clone, Copy, PartialEq, Eq, Structural)]
pub enum ProtocolVersion {
    Node1_3,
    Node1_4,
}

impl ProtocolVersion {
    /// The numeric identifier of the protocol version on the wire.
    pub open spec fn spec_id(&self) -> u64 {
        match self {
            ProtocolVersion::Node1_3 => 1,
            ProtocolVersion::Node1_4 => 2,
        }
    }

    #[verifier::when_used_as_spec(spec_id)]
    pub fn id(&self) -> (r: u64)
        ensures
            r == self.spec_id(),
    {
        match self {
            ProtocolVersion::Node1_3 => 1,
            ProtocolVersion::Node1_4 => 2,
        }
    }
}

/// Settings read by every operation: the protocol version and the engine's
/// timeout and connection policy, in seconds and counts.
#[derive(Debug, Clone, Copy, PartialEq, Eq, Structural)]
pub struct PoolConfig {
    pub protocol_version: ProtocolVersion,
    pub freshness_threshold: u64,
    pub ack_timeout: u64,
    pub reply_timeout: u64,
    pub conn_request_limit: u64,
    pub conn_active_timeout: u64,
    pub request_read_nodes: u64,
}

/// The configuration installed at process start.
pub open spec fn default_config() -> PoolConfig {
    PoolConfig {
        protocol_version: ProtocolVersion::Node1_4,
        freshness_threshold: 300,
        ack_timeout: 20,
        reply_timeout: 60,
        conn_request_limit: 5,
        conn_active_timeout: 5,
        request_read_nodes: 2,
    }
}

impl PoolConfig {
    /// A configuration is valid when every threshold, timeout and count is
    /// positive.
    pub open spec fn spec_valid(&self) -> bool {
        &&& self.freshness_threshold > 0
        &&& self.ack_timeout > 0
        &&& self.reply_timeout > 0
        &&& self.conn_request_limit > 0
        &&& self.conn_active_timeout > 0
        &&& self.request_read_nodes > 0
    }

    #[verifier::when_used_as_spec(spec_valid)]
    pub fn valid(&self) -> (r: bool)
        ensures
            r == self.spec_valid(),
    {
        self.freshness_threshold > 0 && self.ack_timeout > 0 && self.reply_timeout > 0
            && self.conn_request_limit > 0 && self.conn_active_timeout > 0
            && self.request_read_nodes > 0
    }
}

impl Default for PoolConfig {
    /// The default configuration; it is valid.
    fn default() -> (r: PoolConfig)
        ensures
            r == default_config(),
            r.spec_valid(),
    {
        PoolConfig {
            protocol_version: ProtocolVersion::Node1_4,
            freshness_threshold: 300,
            ack_timeout: 20,
            reply_timeout: 60,
            conn_request_limit: 5,
            conn_active_timeout: 5,
            request_read_nodes: 2,
        }
    }
}

/// Replaces the current configuration wholesale with a validated new one.
/// An invalid configuration is rejected with an `Input` error and leaves the
/// current configuration untouched.
pub fn set_config(current: &mut PoolConfig, config: PoolConfig) -> (r: Result<(), ErrorCode>)
    ensures
        config.spec_valid() ==> r is Ok && *final(current) == config,
        !config.spec_valid() ==> (r matches Err(e) && e matches ErrorCode::Input { message }
            && message@ == "Invalid pool configuration"@) && *final(current) == *old(current),
{
    if config.valid() {
        *current = config;
        Ok(())
    } else {
        Err(ErrorCode::Input { message: "Invalid pool configuration".to_owned() })
    }
}

/// Replaces the protocol version alone, from its numeric identifier.  An
/// unknown identifier is rejected with an `Input` error and changes nothing.
pub fn set_protocol_version(current: &mut PoolConfig, version: i64) -> (r: Result<(), ErrorCode>)
    ensures
        version == 1 ==> r is Ok && *final(current) == (PoolConfig {
            protocol_version: ProtocolVersion::Node1_3,
            ..*old(current)
        }),
        version == 2 ==> r is Ok && *final(current) == (PoolConfig {
            protocol_version: ProtocolVersion::Node1_4,
            ..*old(current)
        }),
        version != 1 && version != 2 ==> (r matches Err(e) && e matches ErrorCode::Input {
            message,
        } && message@ == "Unknown protocol version"@) && *final(current) == *old(current),
{
    if version == 1 {
        current.protocol_version = ProtocolVersion::Node1_3;
        Ok(())
    } else if version == 2 {
        current.protocol_version = ProtocolVersion::Node1_4;
        Ok(())
    } else {
        Err(ErrorCode::Input { message: "Unknown protocol version".to_owned() })
    }
}

} // verus!
