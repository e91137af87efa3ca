use ledger_client::creds::conversions::CredentialConversions;
use ledger_client::creds::error::{ErrorCode, ServiceFailure, ServiceFailureKind};
use ledger_client::creds::issuer::{CredentialDefinitionData, Issuer, RevocationRegistryData};
use ledger_client::creds::prover::{CredentialRequestData, Prover};
use ledger_client::creds::types::{
    Credential, CredentialAttr, CredentialDefinition, CredentialKeyCorrectnessProof,
    CredentialOffer, CredentialRequest, CredentialRevocationConfig,
    CredentialDefinitionPrivate, CredentialRevocationState, Presentation, PresentationRequest,
    RevocationRegistryDefinition, RevocationRegistryDefinitionPrivate, RevocationRegistryDelta,
    RevocationStatusList, Schema,
};
use ledger_client::creds::verifiers::Verifier;

fn cred_input_error(msg: &str) -> ErrorCode {
    ErrorCode::Input { message: msg.to_string() }
}

fn sample_schema() -> Schema {
    Schema::new(
        "did:example:issuer".to_string(),
        "gvt".to_string(),
        "1.0".to_string(),
        vec!["name".to_string(), "age".to_string()],
    )
}

fn sample_cred_def() -> CredentialDefinition {
    CredentialDefinition::new(
        "did:example:issuer:2:gvt:1.0".to_string(),
        "did:example:issuer".to_string(),
        "tag1".to_string(),
        "{\"primary\":{}}".to_string(),
    )
}

fn sample_rev_reg_def() -> RevocationRegistryDefinition {
    RevocationRegistryDefinition::new(
        "did:example:issuer".to_string(),
        "did:example:issuer:3:CL:did:example:issuer:2:gvt:1.0:tag1".to_string(),
        "rtag".to_string(),
        10,
        "hash".to_string(),
        "/tails/file".to_string(),
        "{\"accumKey\":{}}".to_string(),
    )
}

#[test]
fn schema_identifier_is_assembled_from_its_parts() {
    let schema = sample_schema();
    assert_eq!(schema.schema_id(), "did:example:issuer:2:gvt:1.0");
    assert_eq!(schema.name(), "gvt");
    assert_eq!(schema.version(), "1.0");
    assert_eq!(schema.issuer_id(), "did:example:issuer");
}

#[test]
fn cred_def_identifier_is_assembled_from_its_parts() {
    let cd = sample_cred_def();
    assert_eq!(cd.cred_def_id(), "did:example:issuer:3:CL:did:example:issuer:2:gvt:1.0:tag1");
    assert_eq!(cd.schema_id(), "did:example:issuer:2:gvt:1.0");
    assert_eq!(cd.issuer_id(), "did:example:issuer");
}

#[test]
fn rev_reg_identifier_is_assembled_from_its_parts() {
    let def = sample_rev_reg_def();
    assert_eq!(
        def.rev_reg_id(),
        "did:example:issuer:4:did:example:issuer:3:CL:did:example:issuer:2:gvt:1.0:tag1:CL_ACCUM:rtag"
    );
    assert_eq!(def.max_cred_num(), 10);
    assert_eq!(def.tails_hash(), "hash");
    assert_eq!(def.tails_location(), "/tails/file");
    assert_eq!(def.issuer_id(), "did:example:issuer");
}

#[test]
fn create_schema_validates_every_part() {
    let issuer = Issuer::new();
    let ok = issuer.create_schema(
        "gvt".to_string(),
        "1.0".to_string(),
        "did:example:issuer".to_string(),
        vec!["name".to_string()],
    );
    assert!(ok.is_ok());
    assert_eq!(
        issuer.create_schema(
            "gvt".to_string(),
            "1.0".to_string(),
            "bad".to_string(),
            vec!["name".to_string()]
        ),
        Err(cred_input_error("Invalid issuer id"))
    );
    assert_eq!(
        issuer.create_schema(
            "".to_string(),
            "1.0".to_string(),
            "did:example:issuer".to_string(),
            vec!["name".to_string()]
        ),
        Err(cred_input_error("Schema name must not be empty"))
    );
    assert_eq!(
        issuer.create_schema(
            "gvt".to_string(),
            "".to_string(),
            "did:example:issuer".to_string(),
            vec!["name".to_string()]
        ),
        Err(cred_input_error("Schema version must not be empty"))
    );
    assert_eq!(
        issuer.create_schema(
            "gvt".to_string(),
            "1.0".to_string(),
            "did:example:issuer".to_string(),
            vec![]
        ),
        Err(cred_input_error("No attribute names"))
    );
    assert_eq!(
        issuer.create_schema(
            "gvt".to_string(),
            "1.0".to_string(),
            "did:example:issuer".to_string(),
            vec!["name".to_string(), "".to_string()]
        ),
        Err(cred_input_error("Attribute names must not be empty"))
    );
}

#[test]
fn create_credential_definition_wraps_the_key_material() {
    let issuer = Issuer::new();
    let data = CredentialDefinitionData {
        value_json: "{\"primary\":{}}".to_string(),
        private_json: "{\"p_key\":{}}".to_string(),
        key_correctness_proof_json: "{\"c\":\"1\"}".to_string(),
    };
    let tuple = issuer
        .create_credential_definition(
            "did:example:issuer:2:gvt:1.0".to_string(),
            &sample_schema(),
            "tag1".to_string(),
            "did:example:issuer".to_string(),
            false,
            Ok(data),
        )
        .unwrap();
    assert_eq!(tuple.cred_def.schema_id, "did:example:issuer:2:gvt:1.0");
    assert_eq!(tuple.cred_def.value_json, "{\"primary\":{}}");
    assert_eq!(tuple.cred_def_priv.to_json(), "{\"p_key\":{}}");
    assert_eq!(tuple.key_correctness_proof.to_json(), "{\"c\":\"1\"}");

    let failed = issuer.create_credential_definition(
        "did:example:issuer:2:gvt:1.0".to_string(),
        &sample_schema(),
        "tag1".to_string(),
        "did:example:issuer".to_string(),
        false,
        Err(ServiceFailure {
            kind: ServiceFailureKind::Unexpected,
            message: "keygen failed".to_string(),
        }),
    );
    assert_eq!(
        failed,
        Err(ErrorCode::Unexpected { message: "keygen failed".to_string() })
    );
}

#[test]
fn create_credential_offer_checks_its_inputs() {
    let issuer = Issuer::new();
    let proof = CredentialKeyCorrectnessProof::new("{\"c\":\"1\"}".to_string()).unwrap();
    let offer = issuer
        .create_credential_offer(
            "did:example:issuer:2:gvt:1.0".to_string(),
            "did:example:issuer:3:CL:s:tag1".to_string(),
            &proof,
            "12345".to_string(),
        )
        .unwrap();
    assert_eq!(offer.cred_def_id(), "did:example:issuer:3:CL:s:tag1");
    assert_eq!(offer.nonce, "12345");
    assert_eq!(
        issuer.create_credential_offer(
            "".to_string(),
            "cd".to_string(),
            &proof,
            "12345".to_string()
        ),
        Err(cred_input_error("Invalid schema id"))
    );
    assert_eq!(
        issuer.create_credential_offer(
            "s:1".to_string(),
            "cd".to_string(),
            &proof,
            "not a nonce".to_string()
        ),
        Err(cred_input_error("Invalid nonce"))
    );
}

#[test]
fn create_credential_pairs_raw_and_encoded_values() {
    let issuer = Issuer::new();
    let offer = CredentialOffer::new(
        "s:1".to_string(),
        "cd:1".to_string(),
        "{}".to_string(),
        "1".to_string(),
    );
    let request = CredentialRequest::new("{\"blinded\":{}}".to_string()).unwrap();
    let cred = issuer
        .create_credential(
            &sample_cred_def(),
            &CredentialDefinitionPrivate::new("{}".to_string()).unwrap(),
            &offer,
            &request,
            vec![
                ("name".to_string(), "Alex".to_string()),
                ("age".to_string(), "30".to_string()),
            ],
            Some(vec![("age".to_string(), "30".to_string())]),
            None,
            Ok("{\"signature\":{}}".to_string()),
        )
        .unwrap();
    assert_eq!(cred.schema_id(), "s:1");
    assert_eq!(cred.cred_def_id(), "cd:1");
    assert_eq!(cred.rev_reg_id(), None);
    assert_eq!(cred.rev_reg_index(), None);
    assert_eq!(
        cred.values(),
        vec![
            ("name".to_string(), "Alex".to_string()),
            ("age".to_string(), "30".to_string()),
        ]
    );
    // no encoding was supplied for "name", so it is computed from the raw
    // value: "Alex" is no integer literal, so its attribute hash is used
    let expected_hash = anoncreds_clsignatures::hash_credential_attribute("Alex").unwrap();
    assert_eq!(cred.values[0].encoded, expected_hash);
    assert_ne!(cred.values[0].encoded, "Alex");
    // the caller-supplied encoding for "age" wins
    assert_eq!(cred.values[1].encoded, "30");
}

#[test]
fn computed_encodings_follow_the_integer_rule() {
    let issuer = Issuer::new();
    let offer = CredentialOffer::new(
        "s:1".to_string(),
        "cd:1".to_string(),
        "{}".to_string(),
        "1".to_string(),
    );
    let request = CredentialRequest::new("{}".to_string()).unwrap();
    let cred = issuer
        .create_credential(
            &sample_cred_def(),
            &CredentialDefinitionPrivate::new("{}".to_string()).unwrap(),
            &offer,
            &request,
            vec![
                ("plain".to_string(), "30".to_string()),
                ("padded".to_string(), "007".to_string()),
                ("signed".to_string(), "+42".to_string()),
                ("negative".to_string(), "-17".to_string()),
                ("too_large".to_string(), "2147483648".to_string()),
                ("min".to_string(), "-2147483648".to_string()),
                ("max".to_string(), "2147483647".to_string()),
            ],
            None,
            None,
            Ok("{}".to_string()),
        )
        .unwrap();
    // integer literals encode as the integer's canonical rendering
    assert_eq!(cred.values[0].encoded, "30");
    assert_eq!(cred.values[1].encoded, "7");
    assert_eq!(cred.values[2].encoded, "42");
    assert_eq!(cred.values[3].encoded, "-17");
    // a value outside the 32-bit range falls back to the attribute hash
    assert_eq!(
        cred.values[4].encoded,
        anoncreds_clsignatures::hash_credential_attribute("2147483648").unwrap()
    );
    // the 32-bit boundaries themselves still count as integers
    assert_eq!(cred.values[5].encoded, "-2147483648");
    assert_eq!(cred.values[6].encoded, "2147483647");
}

#[test]
fn create_credential_requires_at_least_one_attribute() {
    let issuer = Issuer::new();
    let offer = CredentialOffer::new(
        "s:1".to_string(),
        "cd:1".to_string(),
        "{}".to_string(),
        "1".to_string(),
    );
    let request = CredentialRequest::new("{}".to_string()).unwrap();
    let r = issuer.create_credential(
        &sample_cred_def(),
        &CredentialDefinitionPrivate::new("{}".to_string()).unwrap(),
        &offer,
        &request,
        vec![],
        None,
        None,
        Ok("{}".to_string()),
    );
    assert_eq!(r, Err(cred_input_error("Cannot create credential with no attribute")));
}

#[test]
fn revocable_credential_carries_its_registry_coordinates() {
    let issuer = Issuer::new();
    let offer = CredentialOffer::new(
        "s:1".to_string(),
        "cd:1".to_string(),
        "{}".to_string(),
        "1".to_string(),
    );
    let request = CredentialRequest::new("{}".to_string()).unwrap();
    let config = CredentialRevocationConfig {
        reg_def: sample_rev_reg_def(),
        reg_def_private: RevocationRegistryDefinitionPrivate::new("{}".to_string()).unwrap(),
        status_list: RevocationStatusList::new("{}".to_string()).unwrap(),
        registry_index: 4,
    };
    let cred = issuer
        .create_credential(
            &sample_cred_def(),
            &CredentialDefinitionPrivate::new("{}".to_string()).unwrap(),
            &offer,
            &request,
            vec![("name".to_string(), "Alex".to_string())],
            None,
            Some(&config),
            Ok("{}".to_string()),
        )
        .unwrap();
    assert_eq!(cred.rev_reg_id(), Some(sample_rev_reg_def().rev_reg_id()));
    assert_eq!(cred.rev_reg_index(), Some(4));
}

#[test]
fn revocation_registry_def_wraps_tails_and_keys() {
    let issuer = Issuer::new();
    let data = RevocationRegistryData {
        tails_hash: "h".to_string(),
        tails_location: "/loc".to_string(),
        public_keys_json: "{\"accumKey\":{}}".to_string(),
        private_json: "{\"gamma\":\"g\"}".to_string(),
    };
    let tuple = issuer
        .create_revocation_registry_def(
            &sample_cred_def(),
            "cd:1".to_string(),
            "rtag".to_string(),
            100,
            None,
            Ok(data),
        )
        .unwrap();
    assert_eq!(tuple.rev_reg_def.issuer_id, "did:example:issuer");
    assert_eq!(tuple.rev_reg_def.max_cred_num, 100);
    assert_eq!(tuple.rev_reg_def_priv.to_json(), "{\"gamma\":\"g\"}");
}

#[test]
fn status_list_updates_check_registry_indexes() {
    let issuer = Issuer::new();
    let def = sample_rev_reg_def(); // capacity 10
    let current = RevocationStatusList::new("{}".to_string()).unwrap();
    let ok = issuer.update_revocation_status_list(
        &sample_cred_def(),
        None,
        Some(vec![1, 10]),
        Some(vec![2]),
        &def,
        &RevocationRegistryDefinitionPrivate::new("{}".to_string()).unwrap(),
        &current,
        Ok("{\"updated\":true}".to_string()),
    );
    assert_eq!(ok.unwrap().to_json(), "{\"updated\":true}");
    let out_of_range = issuer.update_revocation_status_list(
        &sample_cred_def(),
        None,
        Some(vec![11]),
        None,
        &def,
        &RevocationRegistryDefinitionPrivate::new("{}".to_string()).unwrap(),
        &current,
        Ok("{}".to_string()),
    );
    assert_eq!(
        out_of_range,
        Err(ErrorCode::InvalidUserRevocId {
            message: "Revocation registry index out of range".to_string()
        })
    );
}

#[test]
fn credential_request_needs_exactly_one_holder_binding() {
    let prover = Prover::new();
    let offer = CredentialOffer::new(
        "s:1".to_string(),
        "cd:1".to_string(),
        "{}".to_string(),
        "1".to_string(),
    );
    let data = CredentialRequestData {
        request_json: "{\"blinded\":{}}".to_string(),
        metadata_json: "{\"nonce\":\"5\"}".to_string(),
    };
    let ok = prover.create_credential_request(
        Some("entropy".to_string()),
        None,
        &sample_cred_def(),
        "123".to_string(),
        "default".to_string(),
        &offer,
        Ok(data),
    );
    let tuple = ok.unwrap();
    assert_eq!(tuple.request.to_json(), "{\"blinded\":{}}");
    assert_eq!(tuple.metadata.to_json(), "{\"nonce\":\"5\"}");

    let both = prover.create_credential_request(
        Some("entropy".to_string()),
        Some("did:example:2".to_string()),
        &sample_cred_def(),
        "123".to_string(),
        "default".to_string(),
        &offer,
        Err(ServiceFailure { kind: ServiceFailureKind::Input, message: "x".to_string() }),
    );
    assert_eq!(
        both,
        Err(cred_input_error("Exactly one of entropy or prover_did must be supplied"))
    );
    let bad_secret = prover.create_credential_request(
        Some("entropy".to_string()),
        None,
        &sample_cred_def(),
        "not decimal".to_string(),
        "default".to_string(),
        &offer,
        Err(ServiceFailure { kind: ServiceFailureKind::Input, message: "x".to_string() }),
    );
    assert_eq!(bad_secret, Err(cred_input_error("Invalid link secret")));
}

#[test]
fn processed_credential_keeps_everything_but_the_signature() {
    let prover = Prover::new();
    let cred = Credential::new(
        "s:1".to_string(),
        "cd:1".to_string(),
        Some("rr:1".to_string()),
        Some(3),
        vec![CredentialAttr {
            name: "name".to_string(),
            raw: "Alex".to_string(),
            encoded: "1234".to_string(),
        }],
        "{\"old\":true}".to_string(),
    );
    let meta = ledger_client::creds::types::CredentialRequestMetadata::new("{}".to_string())
        .unwrap();
    let processed = prover
        .process_credential(
            &cred,
            &meta,
            "123".to_string(),
            &sample_cred_def(),
            None,
            Ok("{\"new\":true}".to_string()),
        )
        .unwrap();
    assert_eq!(processed.schema_id, "s:1");
    assert_eq!(processed.cred_def_id, "cd:1");
    assert_eq!(processed.rev_reg_id, Some("rr:1".to_string()));
    assert_eq!(processed.rev_reg_index, Some(3));
    assert_eq!(processed.values, cred.values);
    assert_eq!(processed.signature_json, "{\"new\":true}");
}

#[test]
fn presentation_construction_checks_identifier_keys() {
    let prover = Prover::new();
    let pres_req = PresentationRequest::new("{\"nonce\":\"1\"}".to_string()).unwrap();
    let ok = prover.create_presentation(
        &pres_req,
        &vec![],
        None,
        "123".to_string(),
        &vec![("s:1".to_string(), sample_schema())],
        &vec![("cd:1".to_string(), sample_cred_def())],
        Ok("{\"proof\":{}}".to_string()),
    );
    assert_eq!(ok.unwrap().to_json(), "{\"proof\":{}}");
    let bad = prover.create_presentation(
        &pres_req,
        &vec![],
        None,
        "123".to_string(),
        &vec![("bad id".to_string(), sample_schema())],
        &vec![],
        Ok("{}".to_string()),
    );
    assert_eq!(bad, Err(cred_input_error("Invalid schema id")));
}

#[test]
fn revocation_states_check_the_registry_index() {
    let prover = Prover::new();
    let def = sample_rev_reg_def(); // capacity 10
    let list = RevocationStatusList::new("{}".to_string()).unwrap();
    let ok = prover.create_or_update_revocation_state(
        &def,
        &list,
        10,
        "/tails".to_string(),
        None,
        None,
        Ok("{\"witness\":{}}".to_string()),
    );
    assert_eq!(ok.unwrap().to_json(), "{\"witness\":{}}");
    let zero = prover.create_or_update_revocation_state(
        &def,
        &list,
        0,
        "/tails".to_string(),
        None,
        None,
        Ok("{}".to_string()),
    );
    assert_eq!(
        zero,
        Err(ErrorCode::InvalidUserRevocId {
            message: "Revocation registry index out of range".to_string()
        })
    );
}

#[test]
fn revocation_state_is_assembled_from_witness_delta_and_time() {
    let prover = Prover::new();
    let def = sample_rev_reg_def();
    let delta = RevocationRegistryDelta::new("{\"accum\":\"a\"}".to_string()).unwrap();
    let state = prover
        .create_revocation_state(
            &def,
            &delta,
            1700000000,
            2,
            "/tails".to_string(),
            Ok("{\"omega\":\"w\"}".to_string()),
        )
        .unwrap();
    assert_eq!(
        state.to_json(),
        "{\"witness\":{\"omega\":\"w\"},\"rev_reg\":{\"accum\":\"a\"},\"timestamp\":1700000000}"
    );
}

#[test]
fn verification_passes_the_verdict_through() {
    let verifier = Verifier::new();
    let presentation = Presentation::new("{\"proof\":{}}".to_string()).unwrap();
    let pres_req = PresentationRequest::new("{\"nonce\":\"1\"}".to_string()).unwrap();
    let accepted = verifier.verify_presentation(
        &presentation,
        &pres_req,
        &vec![("s:1".to_string(), sample_schema())],
        &vec![("cd:1".to_string(), sample_cred_def())],
        None,
        None,
        None,
        Ok(true),
    );
    assert_eq!(accepted, Ok(true));
    let rejected = verifier.verify_presentation(
        &presentation,
        &pres_req,
        &vec![],
        &vec![],
        None,
        None,
        None,
        Err(ServiceFailure {
            kind: ServiceFailureKind::ProofRejected,
            message: "bad proof".to_string(),
        }),
    );
    assert_eq!(rejected, Err(ErrorCode::ProofRejected { message: "bad proof".to_string() }));
    let bad_key = verifier.verify_presentation(
        &presentation,
        &pres_req,
        &vec![],
        &vec![],
        Some(vec![("bad id".to_string(), sample_rev_reg_def())]),
        None,
        None,
        Ok(true),
    );
    assert_eq!(bad_key, Err(cred_input_error("Invalid revocation registry id")));
}

#[test]
fn opaque_documents_validate_and_round_trip() {
    let list = RevocationStatusList::new("{\"currentAccumulator\":\"a\"}".to_string()).unwrap();
    assert_eq!(list.to_json(), "{\"currentAccumulator\":\"a\"}");
    let bad = CredentialRevocationState::new("{broken".to_string());
    assert_eq!(bad, Err(cred_input_error("Malformed JSON document")));
}

#[test]
fn conversions_validate_their_inputs() {
    let conv = CredentialConversions::new();
    let cred = Credential::new(
        "s:1".to_string(),
        "cd:1".to_string(),
        None,
        None,
        vec![],
        "{}".to_string(),
    );
    let bad_issuer = conv.credential_to_w3c_json(
        &cred,
        "nope".to_string(),
        None,
        Ok("{}".to_string()),
    );
    assert_eq!(bad_issuer, Err(cred_input_error("Invalid issuer id")));
    let bad_version = conv.credential_to_w3c_json(
        &cred,
        "did:example:issuer".to_string(),
        Some("3.0".to_string()),
        Ok("{}".to_string()),
    );
    assert_eq!(bad_version, Err(cred_input_error("Unsupported W3C specification version")));
    let ok = conv.credential_to_w3c_json(
        &cred,
        "did:example:issuer".to_string(),
        Some("1.1".to_string()),
        Ok("{\"w3c\":true}".to_string()),
    );
    assert_eq!(ok, Ok("{\"w3c\":true}".to_string()));

    let malformed = conv.credential_from_w3c_json("{broken".to_string(), Ok(cred.clone()));
    assert_eq!(malformed, Err(cred_input_error("Malformed W3C credential JSON")));
    let round = conv
        .credential_from_w3c_json("{\"w3c\":true}".to_string(), Ok(cred))
        .unwrap();
    assert_eq!(round.schema_id, "s:1");
}

#[test]
fn service_failures_are_classified_across_the_taxonomy() {
    let cases = vec![
        (ServiceFailureKind::Input, ErrorCode::Input { message: "m".to_string() }),
        (ServiceFailureKind::IOError, ErrorCode::IOError { message: "m".to_string() }),
        (ServiceFailureKind::InvalidState, ErrorCode::InvalidState { message: "m".to_string() }),
        (ServiceFailureKind::Unexpected, ErrorCode::Unexpected { message: "m".to_string() }),
        (
            ServiceFailureKind::CredentialRevoked,
            ErrorCode::CredentialRevoked { message: "m".to_string() },
        ),
        (
            ServiceFailureKind::InvalidUserRevocId,
            ErrorCode::InvalidUserRevocId { message: "m".to_string() },
        ),
        (ServiceFailureKind::ProofRejected, ErrorCode::ProofRejected { message: "m".to_string() }),
        (
            ServiceFailureKind::RevocationRegistryFull,
            ErrorCode::RevocationRegistryFull { message: "m".to_string() },
        ),
    ];
    for (kind, expected) in cases {
        let got = ErrorCode::from(ServiceFailure { kind, message: "m".to_string() });
        assert_eq!(got, expected);
    }
}

#[test]
fn fresh_nonce_and_link_secret_are_decimal_strings() {
    let nonce = Verifier::new().generate_nonce().unwrap();
    assert!(!nonce.is_empty() && nonce.chars().all(|c| c.is_ascii_digit()));
    let secret = ledger_client::creds::prover::create_link_secret().unwrap();
    assert!(!secret.is_empty() && secret.chars().all(|c| c.is_ascii_digit()));
    // two draws from the randomness source almost surely differ
    let again = Verifier::new().generate_nonce().unwrap();
    assert_ne!(nonce, again);
}

#[test]
fn serialized_documents_render_exactly_and_parse() {
    let schema = sample_schema();
    let schema_json = schema.to_json();
    assert_eq!(
        schema_json,
        "{\"issuerId\":\"did:example:issuer\",\"name\":\"gvt\",\"version\":\"1.0\",\
         \"attrNames\":[\"name\",\"age\"]}"
    );
    let parsed: serde_json::Value = serde_json::from_str(&schema_json).unwrap();
    assert_eq!(parsed["attrNames"][1], "age");

    let cd = sample_cred_def();
    assert_eq!(
        cd.to_json(),
        "{\"issuerId\":\"did:example:issuer\",\"schemaId\":\"did:example:issuer:2:gvt:1.0\",\
         \"type\":\"CL\",\"tag\":\"tag1\",\"value\":{\"primary\":{}}}"
    );
    serde_json::from_str::<serde_json::Value>(&cd.to_json()).unwrap();

    let offer = CredentialOffer::new(
        "s:1".to_string(),
        "cd:1".to_string(),
        "{\"c\":\"1\"}".to_string(),
        "12345".to_string(),
    );
    assert_eq!(
        offer.to_json(),
        "{\"schemaId\":\"s:1\",\"credDefId\":\"cd:1\",\
         \"keyCorrectnessProof\":{\"c\":\"1\"},\"nonce\":\"12345\"}"
    );
    serde_json::from_str::<serde_json::Value>(&offer.to_json()).unwrap();

    let def = sample_rev_reg_def();
    assert_eq!(
        def.to_json(),
        "{\"issuerId\":\"did:example:issuer\",\"revocDefType\":\"CL_ACCUM\",\
         \"credDefId\":\"did:example:issuer:3:CL:did:example:issuer:2:gvt:1.0:tag1\",\
         \"tag\":\"rtag\",\"value\":{\"maxCredNum\":10,\"tailsHash\":\"hash\",\
         \"tailsLocation\":\"/tails/file\",\"publicKeys\":{\"accumKey\":{}}}}"
    );
    serde_json::from_str::<serde_json::Value>(&def.to_json()).unwrap();
}

#[test]
fn serialized_credential_carries_its_registry_and_values() {
    let cred = Credential::new(
        "s:1".to_string(),
        "cd:1".to_string(),
        Some("rr:1".to_string()),
        Some(4),
        vec![CredentialAttr {
            name: "name".to_string(),
            raw: "Alex".to_string(),
            encoded: "99".to_string(),
        }],
        "{\"sig\":{}}".to_string(),
    );
    assert_eq!(
        cred.to_json(),
        "{\"schemaId\":\"s:1\",\"credDefId\":\"cd:1\",\"revRegId\":\"rr:1\",\
         \"revRegIndex\":4,\"values\":{\"name\":{\"raw\":\"Alex\",\"encoded\":\"99\"}},\
         \"signature\":{\"sig\":{}}}"
    );
    serde_json::from_str::<serde_json::Value>(&cred.to_json()).unwrap();

    let bare = Credential::new(
        "s:1".to_string(),
        "cd:1".to_string(),
        None,
        None,
        vec![
            CredentialAttr {
                name: "a".to_string(),
                raw: "1".to_string(),
                encoded: "1".to_string(),
            },
            CredentialAttr {
                name: "b".to_string(),
                raw: "2".to_string(),
                encoded: "2".to_string(),
            },
        ],
        "{}".to_string(),
    );
    assert_eq!(
        bare.to_json(),
        "{\"schemaId\":\"s:1\",\"credDefId\":\"cd:1\",\
         \"values\":{\"a\":{\"raw\":\"1\",\"encoded\":\"1\"},\
         \"b\":{\"raw\":\"2\",\"encoded\":\"2\"}},\"signature\":{}}"
    );
    serde_json::from_str::<serde_json::Value>(&bare.to_json()).unwrap();
}
