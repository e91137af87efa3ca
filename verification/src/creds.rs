//! The credential-exchange data model and service facades that ride on top
//! of the ledger client: schemas, credential definitions, offers,
//! credentials, revocation registries, and the issuer, prover and verifier
//! entry points.

pub mod error;
pub mod types;
pub mod issuer;
pub mod prover;
pub mod verifiers;
pub mod conversions;
