//! The prover facade: validates and assembles everything around requesting,
//! processing and presenting credentials, and hands the cryptographic work
//! (blinding, proof construction, witness computation) to the credential
//! crypto layer through explicit outcome arguments.

use vstd::prelude::*;
use crate::creds::error::{ErrorCode, ServiceFailure, classify};
use crate::creds::types::{
    Schema, Credential, CredentialDefinition, CredentialOffer, CredentialRequest,
    CredentialRequestMetadata, CredentialRequestTuple, CredentialRevocationState, Presentation,
    PresentationRequest, RequestedCredential, RevocationRegistryDefinition,
    RevocationRegistryDelta, RevocationStatusList, encoded_view, attrs_view_equal,
    clone_opt_string, clone_attrs,
};
use crate::ids::{is_decimal_text, validate_decimal, is_valid_object_id, validate_object_id};
use crate::text::dec_text;
use crate::trusted::fresh_link_secret_text;

verus! {

/// The artifacts produced by the crypto layer for a new credential request.
#[derive(Debug, Clone, PartialEq, Eq)]
pub struct CredentialRequestData {
    pub request_json: String,
    pub metadata_json: String,
}

/// The prover-side service facade.
#[derive(Debug, Clone, Copy, PartialEq, Eq, Structural)]
pub struct Prover {}

impl Prover {
    pub fn new() -> (r: Prover)
        ensures
            r == (Prover {  }),
    {
        Prover {  }
    }
}

/// Draws a fresh link secret from the crypto layer's randomness source.
/// Every successful draw is a decimal number string, the form the other
/// prover operations accept as a link secret; a failed draw surfaces as
/// `Unexpected`.
pub fn create_link_secret() -> (r: Result<String, ErrorCode>)
    ensures
        r matches Ok(s) ==> is_decimal_text(s@),
        r matches Err(e) ==> e matches ErrorCode::Unexpected { .. },
{
    fresh_link_secret_text()
}

/// The serialized revocation state assembled from a witness, a registry
/// snapshot and a timestamp.
pub open spec fn revocation_state_text(witness: Seq<char>, rev_reg: Seq<char>, ts: nat) -> Seq<
    char,
> {
    "{\"witness\":"@ + witness + ",\"rev_reg\":"@ + rev_reg + ",\"timestamp\":"@ + dec_text(ts)
        + "}"@
}

impl Prover {
    /// Assembles a new credential request from the crypto layer's blinded
    /// artifacts.  Fails `Input` on a malformed link secret or when not
    /// exactly one of the entropy and the prover identifier is supplied, and
    /// re-raises the crypto layer's own failure.
    pub fn create_credential_request(
        &self,
        entropy: Option<String>,
        prover_did: Option<String>,
        cred_def: &CredentialDefinition,
        link_secret: String,
        link_secret_id: String,
        cred_offer: &CredentialOffer,
        outcome: Result<CredentialRequestData, ServiceFailure>,
    ) -> (r: Result<CredentialRequestTuple, ErrorCode>)
        ensures
            !is_decimal_text(link_secret@) ==> (r matches Err(e) && e matches ErrorCode::Input {
                message,
            } && message@ == "Invalid link secret"@),
            is_decimal_text(link_secret@) && (entropy is Some) == (prover_did is Some) ==> (
            r matches Err(e) && e matches ErrorCode::Input { message } && message@
                == "Exactly one of entropy or prover_did must be supplied"@),
            is_decimal_text(link_secret@) && (entropy is Some) != (prover_did is Some)
                ==> match outcome {
                Ok(data) => r == Ok::<CredentialRequestTuple, ErrorCode>(
                    CredentialRequestTuple {
                        request: CredentialRequest { json: data.request_json },
                        metadata: CredentialRequestMetadata { json: data.metadata_json },
                    },
                ),
                Err(f) => r == Err::<CredentialRequestTuple, ErrorCode>(classify(f)),
            },
    {
        if !validate_decimal(link_secret.as_str()) {
            return Err(ErrorCode::Input { message: "Invalid link secret".to_owned() });
        }
        let has_entropy = entropy.is_some();
        let has_did = prover_did.is_some();
        if has_entropy == has_did {
            return Err(ErrorCode::Input {
                message: "Exactly one of entropy or prover_did must be supplied".to_owned(),
            });
        }
        let _ = cred_def;
        let _ = link_secret_id;
        let _ = cred_offer;
        match outcome {
            Ok(data) => Ok(
                CredentialRequestTuple {
                    request: CredentialRequest { json: data.request_json },
                    metadata: CredentialRequestMetadata { json: data.metadata_json },
                },
            ),
            Err(f) => Err(ErrorCode::from(f)),
        }
    }

    /// Binds a received credential to the holder: the crypto layer rewrites
    /// the signature, and the processed credential keeps everything else the
    /// received one attested.  Fails `Input` on a malformed link secret, and
    /// re-raises the crypto layer's own failure.
    #[verifier::loop_isolation(false)]
    pub fn process_credential(
        &self,
        cred: &Credential,
        cred_req_metadata: &CredentialRequestMetadata,
        link_secret: String,
        cred_def: &CredentialDefinition,
        rev_reg_def: Option<&RevocationRegistryDefinition>,
        outcome: Result<String, ServiceFailure>,
    ) -> (r: Result<Credential, ErrorCode>)
        ensures
            !is_decimal_text(link_secret@) ==> (r matches Err(e) && e matches ErrorCode::Input {
                message,
            } && message@ == "Invalid link secret"@),
            is_decimal_text(link_secret@) ==> match outcome {
                Ok(signature_json) => r matches Ok(c) && c.schema_id@ == cred.schema_id@
                    && c.cred_def_id@ == cred.cred_def_id@ && encoded_view(c.rev_reg_id)
                    == encoded_view(cred.rev_reg_id) && c.rev_reg_index == cred.rev_reg_index
                    && attrs_view_equal(c.values@, cred.values@) && c.signature_json
                    == signature_json,
                Err(f) => r == Err::<Credential, ErrorCode>(classify(f)),
            },
    {
        if !validate_decimal(link_secret.as_str()) {
            return Err(ErrorCode::Input { message: "Invalid link secret".to_owned() });
        }
        let _ = cred_req_metadata;
        let _ = cred_def;
        let _ = rev_reg_def;
        match outcome {
            Ok(signature_json) => Ok(
                Credential {
                    schema_id: cred.schema_id.clone(),
                    cred_def_id: cred.cred_def_id.clone(),
                    rev_reg_id: clone_opt_string(&cred.rev_reg_id),
                    rev_reg_index: cred.rev_reg_index,
                    values: clone_attrs(&cred.values),
                    signature_json,
                },
            ),
            Err(f) => Err(ErrorCode::from(f)),
        }
    }

    /// Wraps a presentation constructed by the crypto layer, after checking
    /// the link secret and every schema and credential-definition identifier
    /// the presentation refers to.  Fails `Input` on a malformed input, and
    /// re-raises the crypto layer's own failure.
    #[verifier::loop_isolation(false)]
    pub fn create_presentation(
        &self,
        pres_req: &PresentationRequest,
        requested_credentials: &Vec<RequestedCredential>,
        self_attested_attributes: Option<Vec<(String, String)>>,
        link_secret: String,
        schemas: &Vec<(String, Schema)>,
        cred_defs: &Vec<(String, CredentialDefinition)>,
        outcome: Result<String, ServiceFailure>,
    ) -> (r: Result<Presentation, ErrorCode>)
        ensures
            !is_decimal_text(link_secret@) ==> (r matches Err(e) && e matches ErrorCode::Input {
                message,
            } && message@ == "Invalid link secret"@),
            is_decimal_text(link_secret@) && !(forall|i: int|
                0 <= i < schemas@.len() ==> is_valid_object_id(
                    (#[trigger] schemas@[i]).0@,
                )) ==> (r matches Err(e) && e matches ErrorCode::Input { message } && message@
                == "Invalid schema id"@),
            is_decimal_text(link_secret@) && (forall|i: int|
                0 <= i < schemas@.len() ==> is_valid_object_id((#[trigger] schemas@[i]).0@))
                && !(forall|i: int|
                0 <= i < cred_defs@.len() ==> is_valid_object_id(
                    (#[trigger] cred_defs@[i]).0@,
                )) ==> (r matches Err(e) && e matches ErrorCode::Input { message } && message@
                == "Invalid credential definition id"@),
            is_decimal_text(link_secret@) && (forall|i: int|
                0 <= i < schemas@.len() ==> is_valid_object_id((#[trigger] schemas@[i]).0@)) && (
            forall|i: int|
                0 <= i < cred_defs@.len() ==> is_valid_object_id((#[trigger] cred_defs@[i]).0@))
                ==> match outcome {
                Ok(presentation_json) => r == Ok::<Presentation, ErrorCode>(
                    Presentation { json: presentation_json },
                ),
                Err(f) => r == Err::<Presentation, ErrorCode>(classify(f)),
            },
    {
        if !validate_decimal(link_secret.as_str()) {
            return Err(ErrorCode::Input { message: "Invalid link secret".to_owned() });
        }
        let mut i: usize = 0;
        while i < schemas.len()
            invariant
                i <= schemas@.len(),
                forall|j: int| 0 <= j < i ==> is_valid_object_id((#[trigger] schemas@[j]).0@),
            decreases schemas@.len() - i,
        {
            if !validate_object_id(schemas[i].0.as_str()) {
                return Err(ErrorCode::Input { message: "Invalid schema id".to_owned() });
            }
            i += 1;
        }
        let mut i: usize = 0;
        while i < cred_defs.len()
            invariant
                i <= cred_defs@.len(),
                forall|j: int| 0 <= j < i ==> is_valid_object_id((#[trigger] cred_defs@[j]).0@),
            decreases cred_defs@.len() - i,
        {
            if !validate_object_id(cred_defs[i].0.as_str()) {
                return Err(ErrorCode::Input {
                    message: "Invalid credential definition id".to_owned(),
                });
            }
            i += 1;
        }
        let _ = pres_req;
        let _ = requested_credentials;
        let _ = self_attested_attributes;
        match outcome {
            Ok(presentation_json) => Ok(Presentation { json: presentation_json }),
            Err(f) => Err(ErrorCode::from(f)),
        }
    }

    /// Wraps a revocation state created or updated by the crypto layer.
    /// Fails with the invalid-registry-index condition when the 1-based
    /// registry index exceeds the registry's capacity, and re-raises the
    /// crypto layer's own failure.
    pub fn create_or_update_revocation_state(
        &self,
        rev_reg_def: &RevocationRegistryDefinition,
        rev_status_list: &RevocationStatusList,
        rev_reg_idx: u32,
        tails_path: String,
        rev_state: Option<&CredentialRevocationState>,
        old_rev_status_list: Option<&RevocationStatusList>,
        outcome: Result<String, ServiceFailure>,
    ) -> (r: Result<CredentialRevocationState, ErrorCode>)
        ensures
            !(0 < rev_reg_idx <= rev_reg_def.max_cred_num) ==> (r matches Err(e)
                && e matches ErrorCode::InvalidUserRevocId { message } && message@
                == "Revocation registry index out of range"@),
            0 < rev_reg_idx <= rev_reg_def.max_cred_num ==> match outcome {
                Ok(state_json) => r == Ok::<CredentialRevocationState, ErrorCode>(
                    CredentialRevocationState { json: state_json },
                ),
                Err(f) => r == Err::<CredentialRevocationState, ErrorCode>(classify(f)),
            },
    {
        if rev_reg_idx == 0 || rev_reg_idx > rev_reg_def.max_cred_num {
            return Err(ErrorCode::InvalidUserRevocId {
                message: "Revocation registry index out of range".to_owned(),
            });
        }
        let _ = rev_status_list;
        let _ = tails_path;
        let _ = rev_state;
        let _ = old_rev_status_list;
        match outcome {
            Ok(state_json) => Ok(CredentialRevocationState { json: state_json }),
            Err(f) => Err(ErrorCode::from(f)),
        }
    }

    /// Assembles a revocation state at one point in time from the witness
    /// the crypto layer computed over the tails file, together with the
    /// registry delta it was computed against.  Fails with the
    /// invalid-registry-index condition when the 1-based registry index
    /// exceeds the registry's capacity, and re-raises the crypto layer's own
    /// failure.
    pub fn create_revocation_state(
        &self,
        rev_reg_def: &RevocationRegistryDefinition,
        rev_reg_delta: &RevocationRegistryDelta,
        timestamp: u64,
        rev_reg_idx: u32,
        tails_path: String,
        outcome: Result<String, ServiceFailure>,
    ) -> (r: Result<CredentialRevocationState, ErrorCode>)
        ensures
            !(0 < rev_reg_idx <= rev_reg_def.max_cred_num) ==> (r matches Err(e)
                && e matches ErrorCode::InvalidUserRevocId { message } && message@
                == "Revocation registry index out of range"@),
            0 < rev_reg_idx <= rev_reg_def.max_cred_num ==> match outcome {
                Ok(witness_json) => r matches Ok(state) && state.json@ == revocation_state_text(
                    witness_json@,
                    rev_reg_delta.json@,
                    timestamp as nat,
                ),
                Err(f) => r == Err::<CredentialRevocationState, ErrorCode>(classify(f)),
            },
    {
        if rev_reg_idx == 0 || rev_reg_idx > rev_reg_def.max_cred_num {
            return Err(ErrorCode::InvalidUserRevocId {
                message: "Revocation registry index out of range".to_owned(),
            });
        }
        let _ = tails_path;
        let witness_json = match outcome {
            Ok(w) => w,
            Err(f) => {
                return Err(ErrorCode::from(f));
            },
        };
        let mut out = String::new();
        out.append("{\"witness\":");
        out.append(witness_json.as_str());
        out.append(",\"rev_reg\":");
        out.append(rev_reg_delta.json.as_str());
        out.append(",\"timestamp\":");
        crate::text::append_u64(&mut out, timestamp);
        out.append("}");
        proof {
            assert(out@ =~= revocation_state_text(
                witness_json@,
                rev_reg_delta.json@,
                timestamp as nat,
            ));
        }
        Ok(CredentialRevocationState { json: out })
    }
}

} // verus!
