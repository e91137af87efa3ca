//! The verifier facade: validates every identifier a presentation refers to,
//! normalises the optional registry inputs, and passes the crypto layer's
//! verification verdict through to the caller.

use vstd::prelude::*;
use crate::creds::error::{ErrorCode, ServiceFailure, classify};
use crate::creds::types::{
    Schema, CredentialDefinition, Presentation, PresentationRequest,
    RevocationRegistryDefinition, RevocationStatusList,
};
use crate::ids::{is_valid_object_id, validate_object_id, is_decimal_text};
use crate::trusted::fresh_nonce_text;

verus! {

/// The verifier-side service facade.
#[derive(Debug, Clone, Copy, PartialEq, Eq, Structural)]
pub struct Verifier {}

impl Verifier {
    pub fn new() -> (r: Verifier)
        ensures
            r == (Verifier {  }),
    {
        Verifier {  }
    }

    /// Draws a fresh proof-request nonce from the crypto layer's randomness
    /// source.  Every successful draw is a decimal number string; a failed
    /// draw surfaces as `Unexpected`.
    pub fn generate_nonce(&self) -> (r: Result<String, ErrorCode>)
        ensures
            r matches Ok(s) ==> is_decimal_text(s@),
            r matches Err(e) ==> e matches ErrorCode::Unexpected { .. },
    {
        fresh_nonce_text()
    }
}

/// Every key of an identifier-keyed schema list is a valid object
/// identifier.
pub open spec fn schema_keys_ok(schemas: Seq<(String, Schema)>) -> bool {
    forall|i: int| 0 <= i < schemas.len() ==> is_valid_object_id((#[trigger] schemas[i]).0@)
}

/// Every key of an identifier-keyed credential-definition list is a valid
/// object identifier.
pub open spec fn cred_def_keys_ok(cred_defs: Seq<(String, CredentialDefinition)>) -> bool {
    forall|i: int| 0 <= i < cred_defs.len() ==> is_valid_object_id((#[trigger] cred_defs[i]).0@)
}

/// Every key of an optional identifier-keyed revocation-registry list is a
/// valid object identifier.
pub open spec fn rev_reg_keys_ok(
    rev_reg_defs: Option<Vec<(String, RevocationRegistryDefinition)>>,
) -> bool {
    match rev_reg_defs {
        Some(defs) => forall|i: int|
            0 <= i < defs@.len() ==> is_valid_object_id((#[trigger] defs@[i]).0@),
        None => true,
    }
}

/// Every key of an optional non-revocation interval override is a valid
/// object identifier.
pub open spec fn override_keys_ok(
    nonrevoke_interval_override: Option<Vec<(String, Vec<(u64, u64)>)>>,
) -> bool {
    match nonrevoke_interval_override {
        Some(entries) => forall|i: int|
            0 <= i < entries@.len() ==> is_valid_object_id((#[trigger] entries@[i]).0@),
        None => true,
    }
}

impl Verifier {
    /// Verifies a presentation: checks every schema, credential-definition
    /// and revocation-registry identifier the inputs are keyed by, then
    /// returns the crypto layer's verification verdict unchanged.  A
    /// malformed identifier fails `Input` naming the offending field; a
    /// crypto failure is re-raised.
    #[verifier::loop_isolation(false)]
    pub fn verify_presentation(
        &self,
        presentation: &Presentation,
        pres_req: &PresentationRequest,
        schemas: &Vec<(String, Schema)>,
        cred_defs: &Vec<(String, CredentialDefinition)>,
        rev_reg_defs: Option<Vec<(String, RevocationRegistryDefinition)>>,
        rev_status_lists: Option<Vec<RevocationStatusList>>,
        nonrevoke_interval_override: Option<Vec<(String, Vec<(u64, u64)>)>>,
        outcome: Result<bool, ServiceFailure>,
    ) -> (r: Result<bool, ErrorCode>)
        ensures
            !schema_keys_ok(schemas@) ==> (r matches Err(e) && e matches ErrorCode::Input {
                message,
            } && message@ == "Invalid schema id"@),
            schema_keys_ok(schemas@) && !cred_def_keys_ok(cred_defs@) ==> (r matches Err(e)
                && e matches ErrorCode::Input { message } && message@
                == "Invalid credential definition id"@),
            schema_keys_ok(schemas@) && cred_def_keys_ok(cred_defs@) && !rev_reg_keys_ok(
                rev_reg_defs,
            ) ==> (r matches Err(e) && e matches ErrorCode::Input { message } && message@
                == "Invalid revocation registry id"@),
            schema_keys_ok(schemas@) && cred_def_keys_ok(cred_defs@) && rev_reg_keys_ok(
                rev_reg_defs,
            ) && !override_keys_ok(nonrevoke_interval_override) ==> (r matches Err(e)
                && e matches ErrorCode::Input { message } && message@
                == "Invalid revocation registry id"@),
            schema_keys_ok(schemas@) && cred_def_keys_ok(cred_defs@) && rev_reg_keys_ok(
                rev_reg_defs,
            ) && override_keys_ok(nonrevoke_interval_override) ==> match outcome {
                Ok(verdict) => r == Ok::<bool, ErrorCode>(verdict),
                Err(f) => r == Err::<bool, ErrorCode>(classify(f)),
            },
    {
        let mut i: usize = 0;
        while i < schemas.len()
            invariant
                i <= schemas@.len(),
                forall|j: int| 0 <= j < i ==> is_valid_object_id((#[trigger] schemas@[j]).0@),
            decreases schemas@.len() - i,
        {
            if !validate_object_id(schemas[i].0.as_str()) {
                return Err(ErrorCode::Input { message: "Invalid schema id".to_owned() });
            }
            i += 1;
        }
        let mut i: usize = 0;
        while i < cred_defs.len()
            invariant
                i <= cred_defs@.len(),
                forall|j: int| 0 <= j < i ==> is_valid_object_id((#[trigger] cred_defs@[j]).0@),
            decreases cred_defs@.len() - i,
        {
            if !validate_object_id(cred_defs[i].0.as_str()) {
                return Err(ErrorCode::Input {
                    message: "Invalid credential definition id".to_owned(),
                });
            }
            i += 1;
        }
        match &rev_reg_defs {
            Some(defs) => {
                let mut i: usize = 0;
                while i < defs.len()
                    invariant
                        i <= defs@.len(),
                        forall|j: int| 0 <= j < i ==> is_valid_object_id((#[trigger] defs@[j]).0@),
                    decreases defs@.len() - i,
                {
                    if !validate_object_id(defs[i].0.as_str()) {
                        return Err(ErrorCode::Input {
                            message: "Invalid revocation registry id".to_owned(),
                        });
                    }
                    i += 1;
                }
            },
            None => {},
        }
        match &nonrevoke_interval_override {
            Some(entries) => {
                let mut i: usize = 0;
                while i < entries.len()
                    invariant
                        i <= entries@.len(),
                        forall|j: int|
                            0 <= j < i ==> is_valid_object_id((#[trigger] entries@[j]).0@),
                    decreases entries@.len() - i,
                {
                    if !validate_object_id(entries[i].0.as_str()) {
                        return Err(ErrorCode::Input {
                            message: "Invalid revocation registry id".to_owned(),
                        });
                    }
                    i += 1;
                }
            },
            None => {},
        }
        let _ = presentation;
        let _ = pres_req;
        let _ = rev_status_lists;
        match outcome {
            Ok(verdict) => Ok(verdict),
            Err(f) => Err(ErrorCode::from(f)),
        }
    }
}

} // verus!
