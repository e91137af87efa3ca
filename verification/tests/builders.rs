use ledger_client::config::PoolConfig;
use ledger_client::error::ErrorCode;
use ledger_client::ids::{validate_did, validate_decimal, validate_object_id};
use ledger_client::ledger::{Ledger, LedgerType, get_request_builder};
use ledger_client::pool::{open_pool, RequestResult, SubmitEvent};
use ledger_client::requests::RequestMethod;
use ledger_client::text::{hex_of_bytes, join_lines, u64_text};

fn ledger() -> Ledger {
    Ledger::new(PoolConfig::default())
}

fn input_error(msg: &str) -> ErrorCode {
    ErrorCode::Input { message: msg.to_string() }
}

fn already_used_error() -> ErrorCode {
    ErrorCode::Unexpected { message: "Request is already used".to_string() }
}

#[test]
fn nym_request_body_declares_kind_and_identifiers() {
    let req = ledger()
        .build_nym_request(
            "did:example:1".to_string(),
            "did:example:2".to_string(),
            None,
            None,
            None,
            None,
            None,
        )
        .unwrap();
    let body = req.body().unwrap();
    assert_eq!(
        body,
        "{\"identifier\":\"did:example:1\",\"operation\":{\"type\":\"1\",\
         \"dest\":\"did:example:2\"},\"protocolVersion\":2}"
    );
    // the body is a parsable document referencing both identifiers
    let parsed: serde_json::Value = serde_json::from_str(&body).unwrap();
    assert_eq!(parsed["identifier"], "did:example:1");
    assert_eq!(parsed["operation"]["dest"], "did:example:2");
    assert_eq!(parsed["operation"]["type"], "1");
}

#[test]
fn nym_request_with_all_options_keeps_field_order() {
    let req = ledger()
        .build_nym_request(
            "did:example:1".to_string(),
            "did:example:2".to_string(),
            Some("vk".to_string()),
            Some("al\"ias".to_string()),
            Some("TRUSTEE".to_string()),
            Some("{\"k\":1}".to_string()),
            Some(2),
        )
        .unwrap();
    let body = req.body().unwrap();
    assert_eq!(
        body,
        "{\"identifier\":\"did:example:1\",\"operation\":{\"type\":\"1\",\
         \"dest\":\"did:example:2\",\"verkey\":\"vk\",\"alias\":\"al\\\"ias\",\
         \"role\":\"TRUSTEE\",\"diddocContent\":{\"k\":1},\"version\":2},\
         \"protocolVersion\":2}"
    );
}

#[test]
fn malformed_submitter_fails_input_before_any_network_work() {
    let r = ledger().build_nym_request(
        "not a did".to_string(),
        "did:example:2".to_string(),
        None,
        None,
        None,
        None,
        None,
    );
    assert_eq!(r, Err(input_error("Invalid submitter DID")));
}

#[test]
fn malformed_target_fails_input() {
    let r = ledger().build_get_nym_request(None, "!!!".to_string(), None, None);
    assert_eq!(r, Err(input_error("Invalid target DID")));
}

#[test]
fn malformed_embedded_json_fails_input() {
    let r = ledger().build_schema_request("did:example:1".to_string(), "not json".to_string());
    assert_eq!(r, Err(input_error("Error deserializing schema")));
}

#[test]
fn example_scenario_registration_decoration_and_single_use() {
    let cfg = PoolConfig::default();
    let ledger = Ledger::new(cfg);
    let mut req = ledger
        .build_nym_request(
            "did:example:1".to_string(),
            "did:example:2".to_string(),
            None,
            None,
            None,
            None,
            None,
        )
        .unwrap();
    let body = req.body().unwrap();
    let parsed: serde_json::Value = serde_json::from_str(&body).unwrap();
    assert_eq!(parsed["identifier"], "did:example:1");
    assert_eq!(parsed["operation"]["dest"], "did:example:2");

    assert_eq!(
        req.set_signature(vec![]),
        Err(input_error("Signature length must be greater than zero"))
    );

    let pool = open_pool("{\"txn\":1}".to_string(), None, &cfg).unwrap();
    let first = pool.submit_request(
        &mut req,
        SubmitEvent::Completed(Ok((RequestResult::Reply("ok".to_string()), None))),
    );
    assert_eq!(first, Ok("ok".to_string()));
    let second = pool.submit_request(
        &mut req,
        SubmitEvent::Completed(Ok((RequestResult::Reply("again".to_string()), None))),
    );
    assert_eq!(second, Err(already_used_error()));
}

#[test]
fn consumed_request_rejects_every_decoration() {
    let mut req = ledger()
        .build_get_nym_request(None, "did:example:2".to_string(), None, None)
        .unwrap();
    let taken = req.take();
    assert!(taken.is_ok());
    assert_eq!(req.body(), Err(already_used_error()));
    assert_eq!(req.signature_input(), Err(already_used_error()));
    assert_eq!(req.set_endorser("did:example:9".to_string()), Err(already_used_error()));
    assert_eq!(req.set_signature(vec![1, 2, 3]), Err(already_used_error()));
    assert_eq!(
        req.set_multi_signature("did:example:9".to_string(), vec![1]),
        Err(already_used_error())
    );
    assert_eq!(
        req.set_txn_author_agreement_acceptance("{\"mechanism\":\"x\"}".to_string()),
        Err(already_used_error())
    );
    assert_eq!(req.set_method(RequestMethod::Default), Err(already_used_error()));
    assert_eq!(req.take(), Err(already_used_error()));
}

#[test]
fn decorations_appear_in_the_body() {
    let mut req = ledger()
        .build_get_nym_request(None, "did:example:2".to_string(), None, None)
        .unwrap();
    req.set_endorser("did:example:9".to_string()).unwrap();
    req.set_txn_author_agreement_acceptance(
        "{\"mechanism\":\"click\",\"taaDigest\":\"aa\",\"time\":0}".to_string(),
    )
    .unwrap();
    let body = req.body().unwrap();
    assert_eq!(
        body,
        "{\"operation\":{\"type\":\"105\",\"dest\":\"did:example:2\"},\
         \"protocolVersion\":2,\"endorser\":\"did:example:9\",\
         \"taaAcceptance\":{\"mechanism\":\"click\",\"taaDigest\":\"aa\",\"time\":0}}"
    );
}

#[test]
fn signature_decorations_validate_their_inputs() {
    let mut req = ledger()
        .build_get_nym_request(None, "did:example:2".to_string(), None, None)
        .unwrap();
    assert_eq!(req.set_endorser("bad".to_string()), Err(input_error("Invalid endorser DID")));
    assert_eq!(
        req.set_multi_signature("bad".to_string(), vec![1]),
        Err(input_error("Invalid identifier DID"))
    );
    assert_eq!(
        req.set_multi_signature("did:example:9".to_string(), vec![]),
        Err(input_error("Signature length must be greater than zero"))
    );
    assert_eq!(
        req.set_txn_author_agreement_acceptance("{broken".to_string()),
        Err(input_error("Invalid TAA acceptance format"))
    );
    req.set_signature(vec![7, 7]).unwrap();
    req.set_multi_signature("did:example:9".to_string(), vec![8]).unwrap();
}

#[test]
fn custom_request_keeps_its_body_verbatim() {
    let req = ledger().build_custom_request("{\"operation\":{\"type\":\"1\"}}".to_string()).unwrap();
    assert_eq!(req.body().unwrap(), "{\"operation\":{\"type\":\"1\"}}");
    let bad = ledger().build_custom_request("nope".to_string());
    assert_eq!(bad, Err(input_error("Error deserializing custom request JSON")));
}

#[test]
fn get_txn_request_names_the_ledger() {
    let req = ledger().build_get_txn_request(None, LedgerType::DOMAIN, 15).unwrap();
    assert_eq!(
        req.body().unwrap(),
        "{\"operation\":{\"type\":\"3\",\"ledgerId\":1,\"data\":15},\"protocolVersion\":2}"
    );
}

#[test]
fn get_revoc_reg_delta_request_spells_the_interval() {
    let req = ledger()
        .build_get_revoc_reg_delta_request(
            None,
            "rev:reg:id".to_string(),
            Some(-1),
            1700000000,
        )
        .unwrap();
    assert_eq!(
        req.body().unwrap(),
        "{\"operation\":{\"type\":\"117\",\"revocRegDefId\":\"rev:reg:id\",\
         \"from\":-1,\"to\":1700000000},\"protocolVersion\":2}"
    );
}

#[test]
fn revoc_reg_entry_request_fixes_the_registry_type() {
    let req = ledger()
        .build_revoc_reg_entry_request(
            "did:example:1".to_string(),
            "rev:reg:id".to_string(),
            "{\"accum\":\"x\"}".to_string(),
        )
        .unwrap();
    assert_eq!(
        req.body().unwrap(),
        "{\"identifier\":\"did:example:1\",\"operation\":{\"type\":\"114\",\
         \"revocRegDefId\":\"rev:reg:id\",\"revocDefType\":\"CL_ACCUM\",\
         \"value\":{\"accum\":\"x\"}},\"protocolVersion\":2}"
    );
    let bad = ledger().build_revoc_reg_entry_request(
        "did:example:1".to_string(),
        "rev reg id".to_string(),
        "{}".to_string(),
    );
    assert_eq!(bad, Err(input_error("Invalid revocation registry id")));
}

#[test]
fn pool_config_request_carries_flags() {
    let req = ledger().build_pool_config_request("did:example:1".to_string(), true, false).unwrap();
    assert_eq!(
        req.body().unwrap(),
        "{\"identifier\":\"did:example:1\",\"operation\":{\"type\":\"111\",\
         \"writes\":true,\"force\":false},\"protocolVersion\":2}"
    );
}

#[test]
fn builder_reads_the_configuration_snapshot() {
    let mut cfg = PoolConfig::default();
    ledger_client::config::set_protocol_version(&mut cfg, 1).unwrap();
    let builder = get_request_builder(&cfg).unwrap();
    assert_eq!(builder.protocol_version, cfg.protocol_version);
    let ledger = Ledger::new(cfg);
    let req = ledger.build_get_nym_request(None, "did:example:2".to_string(), None, None).unwrap();
    assert_eq!(
        req.body().unwrap(),
        "{\"operation\":{\"type\":\"105\",\"dest\":\"did:example:2\"},\"protocolVersion\":1}"
    );
}

#[test]
fn signature_input_matches_the_unsigned_body() {
    let mut req = ledger()
        .build_get_nym_request(None, "did:example:2".to_string(), None, None)
        .unwrap();
    let body = req.body().unwrap();
    assert_eq!(req.signature_input().unwrap(), body);
    req.set_signature(vec![1]).unwrap();
    // signatures are transport metadata and never appear in the signed text
    assert_eq!(req.signature_input().unwrap(), body);
}

#[test]
fn acceptance_record_uses_the_given_digest_and_rounds_time() {
    let r = ledger()
        .prepare_txn_author_agreement_acceptance(
            None,
            None,
            Some("abc123".to_string()),
            "on_click".to_string(),
            86400 + 12345,
        )
        .unwrap();
    assert_eq!(r, "{\"mechanism\":\"on_click\",\"taaDigest\":\"abc123\",\"time\":86400}");
}

#[test]
fn acceptance_record_computes_the_digest_from_version_and_text() {
    // SHA-256 of "abc" (version "abc", empty agreement text)
    let r = ledger()
        .prepare_txn_author_agreement_acceptance(
            Some("".to_string()),
            Some("abc".to_string()),
            None,
            "wallet".to_string(),
            0,
        )
        .unwrap();
    assert_eq!(
        r,
        "{\"mechanism\":\"wallet\",\"taaDigest\":\
         \"ba7816bf8f01cfea414140de5dae2223b00361a396177a9cb410ff61f20015ad\",\"time\":0}"
    );
}

#[test]
fn acceptance_record_rejects_partial_or_missing_sources() {
    let l = ledger();
    let expected = input_error("Either taa_digest or both text and version must be specified");
    assert_eq!(
        l.prepare_txn_author_agreement_acceptance(None, None, None, "m".to_string(), 0),
        Err(expected.clone())
    );
    assert_eq!(
        l.prepare_txn_author_agreement_acceptance(
            Some("t".to_string()),
            None,
            None,
            "m".to_string(),
            0
        ),
        Err(expected.clone())
    );
    assert_eq!(
        l.prepare_txn_author_agreement_acceptance(
            None,
            Some("v".to_string()),
            Some("d".to_string()),
            "m".to_string(),
            0
        ),
        Err(expected)
    );
}

#[test]
fn acceptance_record_cross_checks_a_supplied_digest() {
    let l = ledger();
    let mismatch = l.prepare_txn_author_agreement_acceptance(
        Some("".to_string()),
        Some("abc".to_string()),
        Some("0000".to_string()),
        "m".to_string(),
        0,
    );
    assert_eq!(
        mismatch,
        Err(input_error("Calculated digest does not match the provided digest"))
    );
    let matching = l.prepare_txn_author_agreement_acceptance(
        Some("".to_string()),
        Some("abc".to_string()),
        Some("ba7816bf8f01cfea414140de5dae2223b00361a396177a9cb410ff61f20015ad".to_string()),
        "m".to_string(),
        0,
    );
    assert!(matching.is_ok());
}

#[test]
fn did_validation_accepts_qualified_and_unqualified_forms() {
    assert!(validate_did("did:example:1"));
    assert!(validate_did("did:indy:sovrin:alias"));
    assert!(validate_did("VsKV7grR1BUE29mG2Fm2kX")); // 22 base-58 characters
    assert!(!validate_did("did:example:")); // empty method-specific part
    assert!(!validate_did("did::abc")); // empty method
    assert!(!validate_did("DID:example:1")); // prefix is case-sensitive
    assert!(validate_did("VsKV7grR1BUE29mG2Fm2k")); // 21 base-58 characters
    assert!(!validate_did("VsKV7grR1BUE29mG2Fm2")); // 20 characters: too short
    assert!(!validate_did("VsKV7grR1BUE29mG2Fm2kl")); // 'l' is not base-58
}

#[test]
fn object_id_and_decimal_validation() {
    assert!(validate_object_id("NcYxi:2:gvt:1.0"));
    assert!(!validate_object_id(""));
    assert!(!validate_object_id("has space"));
    assert!(validate_decimal("0123456789"));
    assert!(!validate_decimal(""));
    assert!(!validate_decimal("12a"));
}

#[test]
fn text_helpers_render_exactly() {
    assert_eq!(u64_text(0), "0");
    assert_eq!(u64_text(18446744073709551615), "18446744073709551615");
    assert_eq!(hex_of_bytes(&vec![0x00, 0xff, 0x1a]), "00ff1a");
    let lines = vec!["a".to_string(), "b".to_string(), "c".to_string()];
    assert_eq!(join_lines(&lines), "a\nb\nc");
    assert_eq!(join_lines(&vec![]), "");
}

#[test]
fn extreme_numbers_render_exactly() {
    let req = ledger()
        .build_get_revoc_reg_request(None, "rr:1".to_string(), i64::MIN)
        .unwrap();
    assert_eq!(
        req.body().unwrap(),
        "{\"operation\":{\"type\":\"116\",\"revocRegDefId\":\"rr:1\",\
         \"timestamp\":-9223372036854775808},\"protocolVersion\":2}"
    );
}

#[test]
fn every_escaped_character_is_written_out() {
    let req = ledger()
        .build_nym_request(
            "did:example:1".to_string(),
            "did:example:2".to_string(),
            None,
            Some("a\"b\\c\nd\re\tf".to_string()),
            None,
            None,
            None,
        )
        .unwrap();
    let body = req.body().unwrap();
    assert!(body.contains("\"alias\":\"a\\\"b\\\\c\\nd\\re\\tf\""));
    let parsed: serde_json::Value = serde_json::from_str(&body).unwrap();
    assert_eq!(parsed["operation"]["alias"], "a\"b\\c\nd\re\tf");
}

#[test]
fn unknown_role_fails_input() {
    let r = ledger().build_nym_request(
        "did:example:1".to_string(),
        "did:example:2".to_string(),
        None,
        None,
        Some("SUPERVISOR".to_string()),
        None,
        None,
    );
    assert_eq!(r, Err(input_error("Invalid role")));
}
