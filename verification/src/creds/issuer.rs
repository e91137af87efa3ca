//! The issuer facade: validates and assembles everything around credential
//! issuance, and hands the cryptographic work (key generation, signing,
//! accumulator updates) to the credential crypto layer.  Each operation that
//! needs that layer takes its reported outcome as an explicit argument and is
//! verified for every value of it.

use vstd::prelude::*;
use crate::creds::error::{ErrorCode, ServiceFailure, classify};
use crate::creds::types::{
    Schema, CredentialDefinition, CredentialDefinitionPrivate, CredentialDefinitionTuple,
    CredentialKeyCorrectnessProof, CredentialOffer, CredentialAttr, Credential,
    CredentialRequest, CredentialRevocationConfig, RevocationRegistryDefinition,
    RevocationRegistryDefinitionPrivate, RevocationRegistryDefinitionTuple, RevocationStatusList,
    rev_reg_id_text,
};
use crate::ids::{is_valid_did, validate_did, is_valid_object_id, validate_object_id,
    is_decimal_text, validate_decimal};
use crate::text::{parses_as_i32, i32_literal_value, int_text, parse_i32_literal, append_i64};
use crate::trusted::{attribute_hash_text, hash_attribute_text};

verus! {

/// The key material produced by the crypto layer for a new credential
/// definition.
#[derive(Debug, Clone, PartialEq, Eq)]
pub struct CredentialDefinitionData {
    pub value_json: String,
    pub private_json: String,
    pub key_correctness_proof_json: String,
}

/// What the crypto layer produced for a new revocation registry: the tails
/// file fingerprint and location, and the registry key material.
#[derive(Debug, Clone, PartialEq, Eq)]
pub struct RevocationRegistryData {
    pub tails_hash: String,
    pub tails_location: String,
    pub public_keys_json: String,
    pub private_json: String,
}

/// The issuer-side service facade.
#[derive(Debug, Clone, Copy, PartialEq, Eq, Structural)]
pub struct Issuer {}

impl Issuer {
    pub fn new() -> (r: Issuer)
        ensures
            r == (Issuer {  }),
    {
        Issuer {  }
    }
}

/// The first map entry under the given name, when there is one.
pub open spec fn map_lookup(m: Seq<(String, String)>, name: Seq<char>) -> Option<Seq<char>>
    decreases m.len(),
{
    if m.len() == 0 {
        None
    } else if m[0].0@ == name {
        Some(m[0].1@)
    } else {
        map_lookup(m.drop_first(), name)
    }
}

#[verifier::loop_isolation(false)]
fn lookup(m: &Vec<(String, String)>, name: &String) -> (r: Option<String>)
    ensures
        map_lookup(m@, name@) is Some <==> r is Some,
        r matches Some(v) ==> map_lookup(m@, name@) == Some(v@),
{
    proof {
        assert(m@.skip(0) =~= m@);
    }
    let mut i: usize = 0;
    while i < m.len()
        invariant
            i <= m@.len(),
            map_lookup(m@, name@) == map_lookup(m@.skip(i as int), name@),
        decreases m@.len() - i,
    {
        proof {
            assert(m@.skip(i as int)[0] == m@[i as int]);
            assert(m@.skip(i as int).drop_first() =~= m@.skip(i + 1));
        }
        if m[i].0.eq(name) {
            return Some(m[i].1.clone());
        }
        i += 1;
    }
    proof {
        assert(m@.skip(m@.len() as int) =~= Seq::<(String, String)>::empty());
        assert(map_lookup(Seq::<(String, String)>::empty(), name@) is None);
    }
    None
}

impl Issuer {
    /// Assembles and validates a new schema.  Fails `Input` on an invalid
    /// issuer identifier, an empty name or version, or an empty attribute
    /// list or attribute name; on success the schema holds exactly the given
    /// parts.
    #[verifier::loop_isolation(false)]
    pub fn create_schema(
        &self,
        schema_name: String,
        schema_version: String,
        issuer_id: String,
        attr_names: Vec<String>,
    ) -> (r: Result<Schema, ErrorCode>)
        ensures
            !is_valid_did(issuer_id@) ==> (r matches Err(e) && e matches ErrorCode::Input {
                message,
            } && message@ == "Invalid issuer id"@),
            is_valid_did(issuer_id@) && schema_name@.len() == 0 ==> (r matches Err(e)
                && e matches ErrorCode::Input { message } && message@
                == "Schema name must not be empty"@),
            is_valid_did(issuer_id@) && schema_name@.len() > 0 && schema_version@.len() == 0 ==> (
            r matches Err(e) && e matches ErrorCode::Input { message } && message@
                == "Schema version must not be empty"@),
            is_valid_did(issuer_id@) && schema_name@.len() > 0 && schema_version@.len() > 0
                && attr_names@.len() == 0 ==> (r matches Err(e) && e matches ErrorCode::Input {
                message,
            } && message@ == "No attribute names"@),
            is_valid_did(issuer_id@) && schema_name@.len() > 0 && schema_version@.len() > 0
                && attr_names@.len() > 0 && !(forall|i: int|
                0 <= i < attr_names@.len() ==> (#[trigger] attr_names@[i])@.len() > 0) ==> (
            r matches Err(e) && e matches ErrorCode::Input { message } && message@
                == "Attribute names must not be empty"@),
            is_valid_did(issuer_id@) && schema_name@.len() > 0 && schema_version@.len() > 0
                && attr_names@.len() > 0 && (forall|i: int|
                0 <= i < attr_names@.len() ==> (#[trigger] attr_names@[i])@.len() > 0) ==> r == Ok::<
                Schema,
                ErrorCode,
            >(
                Schema {
                    issuer_id,
                    name: schema_name,
                    version: schema_version,
                    attr_names,
                },
            ),
    {
        if !validate_did(issuer_id.as_str()) {
            return Err(ErrorCode::Input { message: "Invalid issuer id".to_owned() });
        }
        if schema_name.as_str().is_empty() {
            return Err(ErrorCode::Input { message: "Schema name must not be empty".to_owned() });
        }
        if schema_version.as_str().is_empty() {
            return Err(ErrorCode::Input { message: "Schema version must not be empty".to_owned() });
        }
        if attr_names.len() == 0 {
            return Err(ErrorCode::Input { message: "No attribute names".to_owned() });
        }
        let mut i: usize = 0;
        while i < attr_names.len()
            invariant
                i <= attr_names@.len(),
                forall|j: int| 0 <= j < i ==> (#[trigger] attr_names@[j])@.len() > 0,
            decreases attr_names@.len() - i,
        {
            if attr_names[i].as_str().is_empty() {
                return Err(ErrorCode::Input {
                    message: "Attribute names must not be empty".to_owned(),
                });
            }
            i += 1;
        }
        Ok(Schema { issuer_id, name: schema_name, version: schema_version, attr_names })
    }

    /// Assembles a new credential definition from the crypto layer's key
    /// material.  Fails `Input` on an invalid schema or issuer identifier,
    /// and re-raises the crypto layer's own failure.
    pub fn create_credential_definition(
        &self,
        schema_id: String,
        schema: &Schema,
        tag: String,
        issuer_id: String,
        support_revocation: bool,
        outcome: Result<CredentialDefinitionData, ServiceFailure>,
    ) -> (r: Result<CredentialDefinitionTuple, ErrorCode>)
        ensures
            !is_valid_object_id(schema_id@) ==> (r matches Err(e) && e matches ErrorCode::Input {
                message,
            } && message@ == "Invalid schema id"@),
            is_valid_object_id(schema_id@) && !is_valid_did(issuer_id@) ==> (r matches Err(e)
                && e matches ErrorCode::Input { message } && message@ == "Invalid issuer id"@),
            is_valid_object_id(schema_id@) && is_valid_did(issuer_id@) ==> match outcome {
                Ok(data) => r == Ok::<CredentialDefinitionTuple, ErrorCode>(
                    CredentialDefinitionTuple {
                        cred_def: CredentialDefinition {
                            schema_id,
                            issuer_id,
                            tag,
                            value_json: data.value_json,
                        },
                        cred_def_priv: CredentialDefinitionPrivate { json: data.private_json },
                        key_correctness_proof: CredentialKeyCorrectnessProof {
                            json: data.key_correctness_proof_json,
                        },
                    },
                ),
                Err(f) => r == Err::<CredentialDefinitionTuple, ErrorCode>(classify(f)),
            },
    {
        if !validate_object_id(schema_id.as_str()) {
            return Err(ErrorCode::Input { message: "Invalid schema id".to_owned() });
        }
        if !validate_did(issuer_id.as_str()) {
            return Err(ErrorCode::Input { message: "Invalid issuer id".to_owned() });
        }
        let _ = schema;
        let _ = support_revocation;
        match outcome {
            Ok(data) => Ok(
                CredentialDefinitionTuple {
                    cred_def: CredentialDefinition {
                        schema_id,
                        issuer_id,
                        tag,
                        value_json: data.value_json,
                    },
                    cred_def_priv: CredentialDefinitionPrivate { json: data.private_json },
                    key_correctness_proof: CredentialKeyCorrectnessProof {
                        json: data.key_correctness_proof_json,
                    },
                },
            ),
            Err(f) => Err(ErrorCode::from(f)),
        }
    }

    /// Assembles a new credential offer around the issuer's key-correctness
    /// proof and a fresh offer nonce drawn by the crypto layer.  Fails
    /// `Input` on an invalid identifier or a non-decimal nonce.
    pub fn create_credential_offer(
        &self,
        schema_id: String,
        cred_def_id: String,
        key_proof: &CredentialKeyCorrectnessProof,
        nonce: String,
    ) -> (r: Result<CredentialOffer, ErrorCode>)
        ensures
            !is_valid_object_id(schema_id@) ==> (r matches Err(e) && e matches ErrorCode::Input {
                message,
            } && message@ == "Invalid schema id"@),
            is_valid_object_id(schema_id@) && !is_valid_object_id(cred_def_id@) ==> (r matches Err(
                e,
            ) && e matches ErrorCode::Input { message } && message@
                == "Invalid credential definition id"@),
            is_valid_object_id(schema_id@) && is_valid_object_id(cred_def_id@) && !is_decimal_text(
                nonce@,
            ) ==> (r matches Err(e) && e matches ErrorCode::Input { message } && message@
                == "Invalid nonce"@),
            is_valid_object_id(schema_id@) && is_valid_object_id(cred_def_id@) && is_decimal_text(
                nonce@,
            ) ==> (r matches Ok(offer) && offer.schema_id == schema_id && offer.cred_def_id
                == cred_def_id && offer.key_correctness_proof_json@ == key_proof.json@
                && offer.nonce == nonce),
    {
        if !validate_object_id(schema_id.as_str()) {
            return Err(ErrorCode::Input { message: "Invalid schema id".to_owned() });
        }
        if !validate_object_id(cred_def_id.as_str()) {
            return Err(ErrorCode::Input { message: "Invalid credential definition id".to_owned() });
        }
        if !validate_decimal(nonce.as_str()) {
            return Err(ErrorCode::Input { message: "Invalid nonce".to_owned() });
        }
        Ok(
            CredentialOffer {
                schema_id,
                cred_def_id,
                key_correctness_proof_json: key_proof.json.clone(),
                nonce,
            },
        )
    }

    /// Assembles a new revocation registry definition from the crypto
    /// layer's tails file and key material.  Fails `Input` on an invalid
    /// credential definition identifier, and re-raises the crypto layer's
    /// own failure.
    pub fn create_revocation_registry_def(
        &self,
        cred_def: &CredentialDefinition,
        cred_def_id: String,
        tag: String,
        max_cred_num: u32,
        tails_dir_path: Option<String>,
        outcome: Result<RevocationRegistryData, ServiceFailure>,
    ) -> (r: Result<RevocationRegistryDefinitionTuple, ErrorCode>)
        ensures
            !is_valid_object_id(cred_def_id@) ==> (r matches Err(e) && e matches ErrorCode::Input {
                message,
            } && message@ == "Invalid credential definition id"@),
            is_valid_object_id(cred_def_id@) ==> match outcome {
                Ok(data) => r matches Ok(t) && t.rev_reg_def.issuer_id@ == cred_def.issuer_id@
                    && t.rev_reg_def.cred_def_id == cred_def_id && t.rev_reg_def.tag == tag
                    && t.rev_reg_def.max_cred_num == max_cred_num && t.rev_reg_def.tails_hash
                    == data.tails_hash && t.rev_reg_def.tails_location == data.tails_location
                    && t.rev_reg_def.public_keys_json == data.public_keys_json
                    && t.rev_reg_def_priv.json == data.private_json,
                Err(f) => r == Err::<RevocationRegistryDefinitionTuple, ErrorCode>(classify(f)),
            },
    {
        if !validate_object_id(cred_def_id.as_str()) {
            return Err(ErrorCode::Input { message: "Invalid credential definition id".to_owned() });
        }
        let _ = tails_dir_path;
        match outcome {
            Ok(data) => Ok(
                RevocationRegistryDefinitionTuple {
                    rev_reg_def: RevocationRegistryDefinition {
                        issuer_id: cred_def.issuer_id.clone(),
                        cred_def_id,
                        tag,
                        max_cred_num,
                        tails_hash: data.tails_hash,
                        tails_location: data.tails_location,
                        public_keys_json: data.public_keys_json,
                    },
                    rev_reg_def_priv: RevocationRegistryDefinitionPrivate {
                        json: data.private_json,
                    },
                },
            ),
            Err(f) => Err(ErrorCode::from(f)),
        }
    }

    /// Wraps the initial revocation status list computed by the crypto
    /// layer.  Fails `Input` on an invalid registry identifier, and
    /// re-raises the crypto layer's own failure.
    pub fn create_revocation_status_list(
        &self,
        cred_def: &CredentialDefinition,
        rev_reg_def_id: String,
        rev_reg_def: &RevocationRegistryDefinition,
        rev_reg_priv: &RevocationRegistryDefinitionPrivate,
        timestamp: Option<u64>,
        issuance_by_default: bool,
        outcome: Result<String, ServiceFailure>,
    ) -> (r: Result<RevocationStatusList, ErrorCode>)
        ensures
            !is_valid_object_id(rev_reg_def_id@) ==> (r matches Err(e)
                && e matches ErrorCode::Input { message } && message@
                == "Invalid revocation registry id"@),
            is_valid_object_id(rev_reg_def_id@) ==> match outcome {
                Ok(list_json) => r == Ok::<RevocationStatusList, ErrorCode>(
                    RevocationStatusList { json: list_json },
                ),
                Err(f) => r == Err::<RevocationStatusList, ErrorCode>(classify(f)),
            },
    {
        if !validate_object_id(rev_reg_def_id.as_str()) {
            return Err(ErrorCode::Input { message: "Invalid revocation registry id".to_owned() });
        }
        let _ = cred_def;
        let _ = rev_reg_def;
        let _ = rev_reg_priv;
        let _ = timestamp;
        let _ = issuance_by_default;
        match outcome {
            Ok(list_json) => Ok(RevocationStatusList { json: list_json }),
            Err(f) => Err(ErrorCode::from(f)),
        }
    }

    /// Wraps an updated revocation status list computed by the crypto layer,
    /// after checking every issued or revoked registry index against the
    /// registry's capacity.  An out-of-range index fails with the
    /// invalid-registry-index condition; a crypto failure is re-raised.
    pub fn update_revocation_status_list(
        &self,
        cred_def: &CredentialDefinition,
        timestamp: Option<u64>,
        issued: Option<Vec<u32>>,
        revoked: Option<Vec<u32>>,
        rev_reg_def: &RevocationRegistryDefinition,
        rev_reg_priv: &RevocationRegistryDefinitionPrivate,
        current_list: &RevocationStatusList,
        outcome: Result<String, ServiceFailure>,
    ) -> (r: Result<RevocationStatusList, ErrorCode>)
        ensures
            !indexes_in_range(issued, rev_reg_def.max_cred_num) || !indexes_in_range(
                revoked,
                rev_reg_def.max_cred_num,
            ) ==> (r matches Err(e) && e matches ErrorCode::InvalidUserRevocId { message }
                && message@ == "Revocation registry index out of range"@),
            indexes_in_range(issued, rev_reg_def.max_cred_num) && indexes_in_range(
                revoked,
                rev_reg_def.max_cred_num,
            ) ==> match outcome {
                Ok(list_json) => r == Ok::<RevocationStatusList, ErrorCode>(
                    RevocationStatusList { json: list_json },
                ),
                Err(f) => r == Err::<RevocationStatusList, ErrorCode>(classify(f)),
            },
    {
        if !check_indexes(&issued, rev_reg_def.max_cred_num) || !check_indexes(
            &revoked,
            rev_reg_def.max_cred_num,
        ) {
            return Err(ErrorCode::InvalidUserRevocId {
                message: "Revocation registry index out of range".to_owned(),
            });
        }
        let _ = cred_def;
        let _ = timestamp;
        let _ = rev_reg_priv;
        let _ = current_list;
        match outcome {
            Ok(list_json) => Ok(RevocationStatusList { json: list_json }),
            Err(f) => Err(ErrorCode::from(f)),
        }
    }

}

/// The encoded form of an attribute raw value, as the signature covers it: a
/// raw value that is a decimal literal of a signed 32-bit integer encodes as
/// that integer's canonical rendering; any other raw value encodes as its
/// attribute hash.
pub open spec fn encoded_attr_text(raw: Seq<char>) -> Seq<char> {
    if parses_as_i32(raw) {
        int_text(i32_literal_value(raw))
    } else {
        attribute_hash_text(raw)
    }
}

/// Computes the encoded form of a raw attribute value.  Fails `Unexpected`
/// only when the attribute-hash call underneath does.
fn encode_raw_value(raw: &str) -> (r: Result<String, ErrorCode>)
    ensures
        r matches Ok(s) ==> s@ == encoded_attr_text(raw@),
        r matches Err(e) ==> e matches ErrorCode::Unexpected { .. },
{
    match parse_i32_literal(raw) {
        Some(v) => {
            let mut out = String::new();
            append_i64(&mut out, v);
            Ok(out)
        },
        None => hash_attribute_text(raw),
    }
}

/// The encoding an issued attribute carries: the caller-supplied one when
/// present, otherwise the one computed from the raw value.
pub open spec fn chosen_encoding(
    m: Option<Vec<(String, String)>>,
    name: Seq<char>,
    raw: Seq<char>,
) -> Seq<char> {
    match enc_lookup(m, name) {
        Some(e) => e,
        None => encoded_attr_text(raw),
    }
}

impl Issuer {
    /// Issues a credential: validates that at least one attribute is given,
    /// pairs every raw value with its encoded form when one was supplied,
    /// and wraps the signature produced by the crypto layer.  The credential
    /// carries the offer's schema and credential definition, and, when a
    /// revocation configuration is given, the registry identifier and index
    /// it can be revoked at.
    #[verifier::loop_isolation(false)]
    pub fn create_credential(
        &self,
        cred_def: &CredentialDefinition,
        cred_def_private: &CredentialDefinitionPrivate,
        cred_offer: &CredentialOffer,
        cred_request: &CredentialRequest,
        attr_raw_values: Vec<(String, String)>,
        attr_enc_values: Option<Vec<(String, String)>>,
        revocation_config: Option<&CredentialRevocationConfig>,
        outcome: Result<String, ServiceFailure>,
    ) -> (r: Result<Credential, ErrorCode>)
        ensures
            attr_raw_values@.len() == 0 ==> (r matches Err(e) && e matches ErrorCode::Input {
                message,
            } && message@ == "Cannot create credential with no attribute"@),
            attr_raw_values@.len() > 0 ==> ((r matches Err(e)
                && e matches ErrorCode::Unexpected { .. }) || match outcome {
                Ok(signature_json) => r matches Ok(cred) && cred.schema_id@ == cred_offer.schema_id@
                    && cred.cred_def_id@ == cred_offer.cred_def_id@ && cred.signature_json
                    == signature_json && cred.values@.len() == attr_raw_values@.len() && (forall|
                    i: int,
                |
                    0 <= i < attr_raw_values@.len() ==> (#[trigger] cred.values@[i]).name@
                        == attr_raw_values@[i].0@ && cred.values@[i].raw@ == attr_raw_values@[i].1@
                        && cred.values@[i].encoded@ == chosen_encoding(
                        attr_enc_values,
                        attr_raw_values@[i].0@,
                        attr_raw_values@[i].1@,
                    )) && (match revocation_config {
                    Some(config) => cred.rev_reg_id matches Some(id) && id@ == rev_reg_id_text(
                        config.reg_def.issuer_id@,
                        config.reg_def.cred_def_id@,
                        config.reg_def.tag@,
                    ) && cred.rev_reg_index == Some(config.registry_index),
                    None => cred.rev_reg_id is None && cred.rev_reg_index is None,
                }),
                Err(f) => r == Err::<Credential, ErrorCode>(classify(f)),
            }),
    {
        if attr_raw_values.len() == 0 {
            return Err(ErrorCode::Input {
                message: "Cannot create credential with no attribute".to_owned(),
            });
        }
        let _ = cred_def;
        let _ = cred_def_private;
        let _ = cred_request;
        let signature_json = match outcome {
            Ok(s) => s,
            Err(f) => {
                return Err(ErrorCode::from(f));
            },
        };
        let mut values: Vec<CredentialAttr> = Vec::new();
        let mut i: usize = 0;
        while i < attr_raw_values.len()
            invariant
                i <= attr_raw_values@.len(),
                values@.len() == i,
                forall|j: int|
                    0 <= j < i ==> (#[trigger] values@[j]).name@ == attr_raw_values@[j].0@
                        && values@[j].raw@ == attr_raw_values@[j].1@ && values@[j].encoded@
                        == chosen_encoding(
                        attr_enc_values,
                        attr_raw_values@[j].0@,
                        attr_raw_values@[j].1@,
                    ),
            decreases attr_raw_values@.len() - i,
        {
            let name = attr_raw_values[i].0.clone();
            let raw = attr_raw_values[i].1.clone();
            let supplied = match &attr_enc_values {
                Some(m) => lookup(m, &name),
                None => None,
            };
            let encoded = match supplied {
                Some(e) => e,
                None => encode_raw_value(raw.as_str())?,
            };
            values.push(CredentialAttr { name, raw, encoded });
            i += 1;
        }
        let (rev_reg_id, rev_reg_index) = match revocation_config {
            Some(config) => (Some(config.reg_def.rev_reg_id()), Some(config.registry_index)),
            None => (None, None),
        };
        Ok(
            Credential {
                schema_id: cred_offer.schema_id.clone(),
                cred_def_id: cred_offer.cred_def_id.clone(),
                rev_reg_id,
                rev_reg_index,
                values,
                signature_json,
            },
        )
    }
}

/// The encoded value supplied for an attribute name, when one was.
pub open spec fn enc_lookup(m: Option<Vec<(String, String)>>, name: Seq<char>) -> Option<
    Seq<char>,
> {
    match m {
        Some(entries) => map_lookup(entries@, name),
        None => None,
    }
}

/// Every index of an optional index list lies within the registry capacity.
pub open spec fn indexes_in_range(v: Option<Vec<u32>>, max: u32) -> bool {
    match v {
        Some(idxs) => forall|i: int| 0 <= i < idxs@.len() ==> 0 < #[trigger] idxs@[i] <= max,
        None => true,
    }
}

#[verifier::loop_isolation(false)]
fn check_indexes(v: &Option<Vec<u32>>, max: u32) -> (r: bool)
    ensures
        r == indexes_in_range(*v, max),
{
    match v {
        Some(idxs) => {
            let mut i: usize = 0;
            while i < idxs.len()
                invariant
                    i <= idxs@.len(),
                    forall|j: int| 0 <= j < i ==> 0 < #[trigger] idxs@[j] <= max,
                decreases idxs@.len() - i,
            {
                if idxs[i] == 0 || idxs[i] > max {
                    assert(!(0 < idxs@[i as int] <= max));
                    return false;
                }
                i += 1;
            }
            true
        },
        None => true,
    }
}

} // verus!
