//! The closed error taxonomy of the credential-exchange services, and the
//! classification of failures reported by the credential crypto layer.

use vstd::prelude::*;

verus! {

/// Every credential-exchange operation returns either a typed success value
/// or exactly one of these errors.
#[derive(Debug, Clone, PartialEq, Eq)]
pub enum ErrorCode {
    Input { message: String },
    IOError { message: String },
    InvalidState { message: String },
    Unexpected { message: String },
    CredentialRevoked { message: String },
    InvalidUserRevocId { message: String },
    ProofRejected { message: String },
    RevocationRegistryFull { message: String },
}

/// The closed set of failure kinds the credential crypto layer can report.
#[derive(Debug, Clone, Copy, PartialEq, Eq)]
pub enum ServiceFailureKind {
    Input,
    IOError,
    InvalidState,
    Unexpected,
    CredentialRevoked,
    InvalidUserRevocId,
    ProofRejected,
    RevocationRegistryFull,
}

/// A raw failure reported by the credential crypto layer: a kind from the
/// closed set and a human-readable message, re-raised verbatim.
#[derive(Debug, Clone, PartialEq, Eq)]
pub struct ServiceFailure {
    pub kind: ServiceFailureKind,
    pub message: String,
}

/// Classification of a service failure into the caller-facing taxonomy: the
/// kind picks the variant, the message is preserved verbatim.
pub open spec fn classify(f: ServiceFailure) -> ErrorCode {
    match f.kind {
        ServiceFailureKind::Input => ErrorCode::Input { message: f.message },
        ServiceFailureKind::IOError => ErrorCode::IOError { message: f.message },
        ServiceFailureKind::InvalidState => ErrorCode::InvalidState { message: f.message },
        ServiceFailureKind::Unexpected => ErrorCode::Unexpected { message: f.message },
        ServiceFailureKind::CredentialRevoked => ErrorCode::CredentialRevoked {
            message: f.message,
        },
        ServiceFailureKind::InvalidUserRevocId => ErrorCode::InvalidUserRevocId {
            message: f.message,
        },
        ServiceFailureKind::ProofRejected => ErrorCode::ProofRejected { message: f.message },
        ServiceFailureKind::RevocationRegistryFull => ErrorCode::RevocationRegistryFull {
            message: f.message,
        },
    }
}

impl From<ServiceFailure> for ErrorCode {
    fn from(f: ServiceFailure) -> (r: ErrorCode) {
        match f.kind {
            ServiceFailureKind::Input => ErrorCode::Input { message: f.message },
            ServiceFailureKind::IOError => ErrorCode::IOError { message: f.message },
            ServiceFailureKind::InvalidState => ErrorCode::InvalidState { message: f.message },
            ServiceFailureKind::Unexpected => ErrorCode::Unexpected { message: f.message },
            ServiceFailureKind::CredentialRevoked => ErrorCode::CredentialRevoked {
                message: f.message,
            },
            ServiceFailureKind::InvalidUserRevocId => ErrorCode::InvalidUserRevocId {
                message: f.message,
            },
            ServiceFailureKind::ProofRejected => ErrorCode::ProofRejected { message: f.message },
            ServiceFailureKind::RevocationRegistryFull => ErrorCode::RevocationRegistryFull {
                message: f.message,
            },
        }
    }
}

impl vstd::std_specs::convert::FromSpecImpl<ServiceFailure> for ErrorCode {
    open spec fn obeys_from_spec() -> bool {
        true
    }

    open spec fn from_spec(f: ServiceFailure) -> ErrorCode {
        classify(f)
    }
}

} // verus!
