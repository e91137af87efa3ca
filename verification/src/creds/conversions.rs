//! Conversions between the native credential form and W3C
//! verifiable-credential documents.  The mapping of the cryptographic proof
//! material is done by the credential crypto layer; this facade validates the
//! caller's inputs and passes the layer's result through.

use vstd::prelude::*;
use crate::creds::error::{ErrorCode, ServiceFailure, classify};
use crate::creds::types::Credential;
use crate::ids::{is_valid_did, validate_did};
use crate::trusted::{json_well_formed, json_text_well_formed};

verus! {

/// The conversion facade.
#[derive(Debug, Clone, Copy, PartialEq, Eq, Structural)]
pub struct CredentialConversions {}

impl CredentialConversions {
    pub fn new() -> (r: CredentialConversions)
        ensures
            r == (CredentialConversions {  }),
    {
        CredentialConversions {  }
    }
}

/// A supported W3C verifiable-credential specification version.
pub open spec fn is_w3c_version(v: Seq<char>) -> bool {
    v == "1.1"@ || v == "2.0"@
}

impl CredentialConversions {
    /// Converts a W3C verifiable-credential document into a native
    /// credential, as decoded by the crypto layer.  Fails `Input` on
    /// malformed JSON, and re-raises the crypto layer's own failure.
    pub fn credential_from_w3c_json(
        &self,
        w3c_credential_json: String,
        outcome: Result<Credential, ServiceFailure>,
    ) -> (r: Result<Credential, ErrorCode>)
        ensures
            !json_well_formed(w3c_credential_json@) ==> (r matches Err(e)
                && e matches ErrorCode::Input { message } && message@
                == "Malformed W3C credential JSON"@),
            json_well_formed(w3c_credential_json@) ==> match outcome {
                Ok(cred) => r == Ok::<Credential, ErrorCode>(cred),
                Err(f) => r == Err::<Credential, ErrorCode>(classify(f)),
            },
    {
        if !json_text_well_formed(w3c_credential_json.as_str()) {
            return Err(ErrorCode::Input { message: "Malformed W3C credential JSON".to_owned() });
        }
        match outcome {
            Ok(cred) => Ok(cred),
            Err(f) => Err(ErrorCode::from(f)),
        }
    }

    /// Converts a native credential into a W3C verifiable-credential
    /// document, as encoded by the crypto layer.  Fails `Input` on an
    /// invalid issuer identifier or an unsupported specification version,
    /// and re-raises the crypto layer's own failure.
    pub fn credential_to_w3c_json(
        &self,
        credential: &Credential,
        issuer_id_string: String,
        version_string: Option<String>,
        outcome: Result<String, ServiceFailure>,
    ) -> (r: Result<String, ErrorCode>)
        ensures
            !is_valid_did(issuer_id_string@) ==> (r matches Err(e) && e matches ErrorCode::Input {
                message,
            } && message@ == "Invalid issuer id"@),
            version_string matches Some(v) ==> (is_valid_did(issuer_id_string@) && !is_w3c_version(
                v@,
            ) ==> (r matches Err(e) && e matches ErrorCode::Input { message } && message@
                == "Unsupported W3C specification version"@)),
            is_valid_did(issuer_id_string@) && (match version_string {
                Some(v) => is_w3c_version(v@),
                None => true,
            }) ==> match outcome {
                Ok(doc) => r == Ok::<String, ErrorCode>(doc),
                Err(f) => r == Err::<String, ErrorCode>(classify(f)),
            },
    {
        if !validate_did(issuer_id_string.as_str()) {
            return Err(ErrorCode::Input { message: "Invalid issuer id".to_owned() });
        }
        match &version_string {
            Some(v) => {
                if !(v.eq(&"1.1".to_owned()) || v.eq(&"2.0".to_owned())) {
                    return Err(ErrorCode::Input {
                        message: "Unsupported W3C specification version".to_owned(),
                    });
                }
            },
            None => {},
        }
        let _ = credential;
        match outcome {
            Ok(doc) => Ok(doc),
            Err(f) => Err(ErrorCode::from(f)),
        }
    }
}

} // verus!
