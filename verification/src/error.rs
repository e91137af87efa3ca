//! Closed error taxonomy surfaced to callers of the pool client and the
//! request builder, and the classification of engine-reported failures.

use vstd::prelude::*;

verus! {

/// Every public operation of the ledger client returns either a typed success
/// value or exactly one of these errors.  `Success` is an internal sentinel
/// used while bridging engine callbacks; it is never surfaced to a caller as
/// an error.
#[derive(Debug, Clone, PartialEq, Eq)]
pub enum ErrorCode {
    Config { message: String },
    Connection { message: String },
    FileSystem { message: String },
    Input { message: String },
    Resource { message: String },
    Unavailable { message: String },
    Unexpected { message: String },
    Incompatible { message: String },
    PoolNoConsensus { message: String },
    PoolRequestFailed { message: String },
    PoolTimeout { message: String },
    Resolver { message: String },
    Success {},
}

/// The closed set of failure kinds that the network engine can report for an
/// operation.  The engine is an external collaborator; its failures reach the
/// client only through this boundary type.
#[derive(Debug, Clone, Copy, PartialEq, Eq)]
pub enum FailureKind {
    Config,
    Connection,
    FileSystem,
    Input,
    Resource,
    Unavailable,
    Unexpected,
    Incompatible,
    PoolNoConsensus,
    PoolRequestFailed,
    PoolTimeout,
    Resolver,
}

/// A raw failure reported by the network engine: a kind from the closed set
/// and a human-readable message, re-raised verbatim to callers.
#[derive(Debug, Clone, PartialEq, Eq)]
pub struct EngineFailure {
    pub kind: FailureKind,
    pub message: String,
}

impl ErrorCode {
    /// True exactly on the internal success sentinel.
    pub open spec fn spec_is_success(&self) -> bool {
        self is Success
    }

    #[verifier::when_used_as_spec(spec_is_success)]
    pub fn is_success(&self) -> (r: bool)
        ensures
            r == self.spec_is_success(),
    {
        matches!(self, ErrorCode::Success {})
    }
}

/// Classification of an engine failure into the caller-facing taxonomy: the
/// kind picks the variant, the message is preserved verbatim.
pub open spec fn classify(f: EngineFailure) -> ErrorCode {
    match f.kind {
        FailureKind::Config => ErrorCode::Config { message: f.message },
        FailureKind::Connection => ErrorCode::Connection { message: f.message },
        FailureKind::FileSystem => ErrorCode::FileSystem { message: f.message },
        FailureKind::Input => ErrorCode::Input { message: f.message },
        FailureKind::Resource => ErrorCode::Resource { message: f.message },
        FailureKind::Unavailable => ErrorCode::Unavailable { message: f.message },
        FailureKind::Unexpected => ErrorCode::Unexpected { message: f.message },
        FailureKind::Incompatible => ErrorCode::Incompatible { message: f.message },
        FailureKind::PoolNoConsensus => ErrorCode::PoolNoConsensus { message: f.message },
        FailureKind::PoolRequestFailed => ErrorCode::PoolRequestFailed { message: f.message },
        FailureKind::PoolTimeout => ErrorCode::PoolTimeout { message: f.message },
        FailureKind::Resolver => ErrorCode::Resolver { message: f.message },
    }
}

impl From<EngineFailure> for ErrorCode {
    fn from(f: EngineFailure) -> (r: ErrorCode) {
        match f.kind {
            FailureKind::Config => ErrorCode::Config { message: f.message },
            FailureKind::Connection => ErrorCode::Connection { message: f.message },
            FailureKind::FileSystem => ErrorCode::FileSystem { message: f.message },
            FailureKind::Input => ErrorCode::Input { message: f.message },
            FailureKind::Resource => ErrorCode::Resource { message: f.message },
            FailureKind::Unavailable => ErrorCode::Unavailable { message: f.message },
            FailureKind::Unexpected => ErrorCode::Unexpected { message: f.message },
            FailureKind::Incompatible => ErrorCode::Incompatible { message: f.message },
            FailureKind::PoolNoConsensus => ErrorCode::PoolNoConsensus { message: f.message },
            FailureKind::PoolRequestFailed => ErrorCode::PoolRequestFailed { message: f.message },
            FailureKind::PoolTimeout => ErrorCode::PoolTimeout { message: f.message },
            FailureKind::Resolver => ErrorCode::Resolver { message: f.message },
        }
    }
}

impl vstd::std_specs::convert::FromSpecImpl<EngineFailure> for ErrorCode {
    open spec fn obeys_from_spec() -> bool {
        true
    }

    open spec fn from_spec(f: EngineFailure) -> ErrorCode {
        classify(f)
    }
}

/// An `Input` error carrying the given message, for malformed caller-supplied
/// data.
pub fn input_err(msg: &str) -> (r: ErrorCode)
    ensures
        r matches ErrorCode::Input { message } && message@ == msg@,
{
    ErrorCode::Input { message: msg.to_owned() }
}

/// True of the error returned when a prepared request is touched after it was
/// consumed.
pub open spec fn is_already_used_err(e: ErrorCode) -> bool {
    e matches ErrorCode::Unexpected { message } && message@ == "Request is already used"@
}

/// The error for a prepared request that was already consumed.
pub fn already_used_err() -> (r: ErrorCode)
    ensures
        is_already_used_err(r),
{
    ErrorCode::Unexpected { message: "Request is already used".to_owned() }
}

/// True of the error returned when an operation is invoked on a closed pool.
pub open spec fn is_closed_err(e: ErrorCode) -> bool {
    e matches ErrorCode::Unexpected { message } && message@ == "Pool is already closed"@
}

/// The error for an operation on a closed pool.
pub fn closed_err() -> (r: ErrorCode)
    ensures
        is_closed_err(r),
{
    ErrorCode::Unexpected { message: "Pool is already closed".to_owned() }
}

/// True of the error returned when the engine drops the completion callback
/// without ever answering (a broken rendezvous).
pub open spec fn is_channel_err(e: ErrorCode) -> bool {
    e matches ErrorCode::Unexpected { message } && message@ == "Channel error: channel closed"@
}

/// The error for a rendezvous whose sender was dropped without delivering an
/// outcome.
pub fn channel_err() -> (r: ErrorCode)
    ensures
        is_channel_err(r),
{
    ErrorCode::Unexpected { message: "Channel error: channel closed".to_owned() }
}

} // verus!
