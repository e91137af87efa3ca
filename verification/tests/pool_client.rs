use ledger_client::config::{PoolConfig, ProtocolVersion, set_config, set_protocol_version};
use ledger_client::error::{ErrorCode, EngineFailure, FailureKind};
use ledger_client::ledger::Ledger;
use ledger_client::pool::{
    open_pool, select_genesis_source, handle_pool_refresh, handle_request_result, GenesisSource,
    RefreshEvent, RequestResult, StatusEvent, SubmitEvent,
};

fn default_config() -> PoolConfig {
    PoolConfig::default()
}

fn genesis_two_lines() -> String {
    "{\"txn\":1}\n{\"txn\":2}\n".to_string()
}

fn reply_event(body: &str) -> SubmitEvent {
    SubmitEvent::Completed(Ok((RequestResult::Reply(body.to_string()), None)))
}

fn closed_error() -> ErrorCode {
    ErrorCode::Unexpected { message: "Pool is already closed".to_string() }
}

fn request_used_error() -> ErrorCode {
    ErrorCode::Unexpected { message: "Request is already used".to_string() }
}

#[test]
fn open_with_neither_source_fails_input() {
    let r = select_genesis_source(None, None);
    assert_eq!(
        r,
        Err(ErrorCode::Input {
            message:
                "Invalid pool create parameters: must provide transactions or transactions_path"
                    .to_string()
        })
    );
}

#[test]
fn open_with_both_sources_prefers_inline() {
    let r = select_genesis_source(Some("inline".to_string()), Some("/tmp/genesis".to_string()));
    assert_eq!(r, Ok(GenesisSource::Inline("inline".to_string())));
}

#[test]
fn open_with_path_alone_uses_path() {
    let r = select_genesis_source(None, Some("/tmp/genesis".to_string()));
    assert_eq!(r, Ok(GenesisSource::FromPath("/tmp/genesis".to_string())));
}

#[test]
fn open_pool_keeps_genesis_lines_in_order() {
    let cfg = default_config();
    let pool = open_pool(genesis_two_lines(), None, &cfg).unwrap();
    let txns = pool.get_transactions().unwrap();
    assert_eq!(txns, "{\"txn\":1}\n{\"txn\":2}");
}

#[test]
fn open_pool_rejects_empty_genesis() {
    let cfg = default_config();
    let r = open_pool("\n\n".to_string(), None, &cfg);
    assert_eq!(r, Err(ErrorCode::Input { message: "No genesis transactions".to_string() }));
}

#[test]
fn open_pool_rejects_malformed_genesis_line() {
    let cfg = default_config();
    let r = open_pool("{\"txn\":1}\nnot json\n".to_string(), None, &cfg);
    assert_eq!(
        r,
        Err(ErrorCode::Input {
            message: "Genesis transaction is not well-formed JSON".to_string()
        })
    );
}

#[test]
fn refresh_without_delta_is_idempotent() {
    let cfg = default_config();
    let mut pool = open_pool(genesis_two_lines(), None, &cfg).unwrap();
    let before_pool = pool.clone();
    let before = pool.get_transactions().unwrap();
    let r = pool.refresh(RefreshEvent::Completed(Ok(None)), &cfg);
    assert_eq!(r, Ok(()));
    assert_eq!(pool, before_pool);
    let after = pool.get_transactions().unwrap();
    assert_eq!(before, after);
}

#[test]
fn refresh_with_delta_appends_in_order() {
    let cfg = default_config();
    let mut pool = open_pool(genesis_two_lines(), None, &cfg).unwrap();
    let delta = vec!["{\"txn\":3}".to_string(), "{\"txn\":4}".to_string()];
    let r = pool.refresh(RefreshEvent::Completed(Ok(Some(delta))), &cfg);
    assert_eq!(r, Ok(()));
    let txns = pool.get_transactions().unwrap();
    assert_eq!(txns, "{\"txn\":1}\n{\"txn\":2}\n{\"txn\":3}\n{\"txn\":4}");
}

#[test]
fn refresh_with_malformed_delta_fails_and_keeps_log() {
    let cfg = default_config();
    let mut pool = open_pool(genesis_two_lines(), None, &cfg).unwrap();
    let delta = vec!["nonsense".to_string()];
    let r = pool.refresh(RefreshEvent::Completed(Ok(Some(delta))), &cfg);
    assert_eq!(
        r,
        Err(ErrorCode::Input {
            message: "Genesis transaction is not well-formed JSON".to_string()
        })
    );
    assert_eq!(pool.get_transactions().unwrap(), "{\"txn\":1}\n{\"txn\":2}");
}

#[test]
fn refresh_failure_is_classified_verbatim() {
    let cfg = default_config();
    let mut pool = open_pool(genesis_two_lines(), None, &cfg).unwrap();
    let r = pool.refresh(
        RefreshEvent::Completed(Err(EngineFailure {
            kind: FailureKind::PoolTimeout,
            message: "no answer".to_string(),
        })),
        &cfg,
    );
    assert_eq!(r, Err(ErrorCode::PoolTimeout { message: "no answer".to_string() }));
}

#[test]
fn refresh_dropped_callback_is_unexpected() {
    let cfg = default_config();
    let mut pool = open_pool(genesis_two_lines(), None, &cfg).unwrap();
    let r = pool.refresh(RefreshEvent::Dropped, &cfg);
    assert_eq!(
        r,
        Err(ErrorCode::Unexpected { message: "Channel error: channel closed".to_string() })
    );
}

#[test]
fn submit_request_returns_reply_body() {
    let cfg = default_config();
    let pool = open_pool(genesis_two_lines(), None, &cfg).unwrap();
    let ledger = Ledger::new(cfg);
    let mut req = ledger
        .build_nym_request(
            "did:example:1".to_string(),
            "did:example:2".to_string(),
            None,
            None,
            None,
            None,
            None,
        )
        .unwrap();
    let r = pool.submit_request(&mut req, reply_event("the reply"));
    assert_eq!(r, Ok("the reply".to_string()));
}

#[test]
fn concurrent_submissions_each_get_their_own_reply() {
    let cfg = default_config();
    let pool = open_pool(genesis_two_lines(), None, &cfg).unwrap();
    let ledger = Ledger::new(cfg);
    let mut first = ledger
        .build_get_nym_request(None, "did:example:2".to_string(), None, None)
        .unwrap();
    let mut second = ledger
        .build_get_nym_request(None, "did:example:3".to_string(), None, None)
        .unwrap();
    let r1 = pool.submit_request(&mut first, reply_event("reply one"));
    let r2 = pool.submit_request(&mut second, reply_event("reply two"));
    assert_eq!(r1, Ok("reply one".to_string()));
    assert_eq!(r2, Ok("reply two".to_string()));
}

#[test]
fn submit_failure_outcomes_are_classified() {
    let cfg = default_config();
    let pool = open_pool(genesis_two_lines(), None, &cfg).unwrap();
    let ledger = Ledger::new(cfg);
    let mut req = ledger
        .build_get_nym_request(None, "did:example:2".to_string(), None, None)
        .unwrap();
    let event = SubmitEvent::Completed(Ok((
        RequestResult::Failed(EngineFailure {
            kind: FailureKind::PoolNoConsensus,
            message: "nodes disagree".to_string(),
        }),
        None,
    )));
    let r = pool.submit_request(&mut req, event);
    assert_eq!(r, Err(ErrorCode::PoolNoConsensus { message: "nodes disagree".to_string() }));

    let mut req2 = ledger
        .build_get_nym_request(None, "did:example:2".to_string(), None, None)
        .unwrap();
    let event2 = SubmitEvent::Completed(Err(EngineFailure {
        kind: FailureKind::Connection,
        message: "unreachable".to_string(),
    }));
    let r2 = pool.submit_request(&mut req2, event2);
    assert_eq!(r2, Err(ErrorCode::Connection { message: "unreachable".to_string() }));
}

#[test]
fn submit_dropped_callback_is_unexpected_not_a_hang() {
    let cfg = default_config();
    let pool = open_pool(genesis_two_lines(), None, &cfg).unwrap();
    let ledger = Ledger::new(cfg);
    let mut req = ledger
        .build_get_nym_request(None, "did:example:2".to_string(), None, None)
        .unwrap();
    let r = pool.submit_request(&mut req, SubmitEvent::Dropped);
    assert_eq!(
        r,
        Err(ErrorCode::Unexpected { message: "Channel error: channel closed".to_string() })
    );
}

#[test]
fn submit_action_stamps_method_and_submits_once() {
    let cfg = default_config();
    let pool = open_pool(genesis_two_lines(), None, &cfg).unwrap();
    let ledger = Ledger::new(cfg);
    let mut req = ledger
        .build_get_validator_info_request("did:example:1".to_string())
        .unwrap();
    let r = pool.submit_action(
        &mut req,
        Some(vec!["node1".to_string()]),
        Some(5),
        reply_event("status data"),
    );
    assert_eq!(r, Ok("status data".to_string()));
    let again = pool.submit_action(&mut req, None, None, reply_event("again"));
    assert_eq!(again, Err(request_used_error()));
}

#[test]
fn get_status_bridges_engine_outcomes() {
    let cfg = default_config();
    let pool = open_pool(genesis_two_lines(), None, &cfg).unwrap();
    let ok = pool.get_status(StatusEvent::Completed(Ok("{\"nodes\":2}".to_string())));
    assert_eq!(ok, Ok("{\"nodes\":2}".to_string()));
    let failed = pool.get_status(StatusEvent::Completed(Err(EngineFailure {
        kind: FailureKind::Unavailable,
        message: "no nodes".to_string(),
    })));
    assert_eq!(failed, Err(ErrorCode::Unavailable { message: "no nodes".to_string() }));
    let dropped = pool.get_status(StatusEvent::Dropped);
    assert_eq!(
        dropped,
        Err(ErrorCode::Unexpected { message: "Channel error: channel closed".to_string() })
    );
}

#[test]
fn closed_pool_rejects_every_operation() {
    let cfg = default_config();
    let mut pool = open_pool(genesis_two_lines(), None, &cfg).unwrap();
    assert_eq!(pool.close(), Ok(()));

    let ledger = Ledger::new(cfg);
    let mut req = ledger
        .build_get_nym_request(None, "did:example:2".to_string(), None, None)
        .unwrap();
    assert_eq!(pool.submit_request(&mut req, reply_event("r")), Err(closed_error()));
    assert_eq!(
        pool.get_status(StatusEvent::Completed(Ok("s".to_string()))),
        Err(closed_error())
    );
    assert_eq!(pool.get_transactions(), Err(closed_error()));
    assert_eq!(pool.refresh(RefreshEvent::Completed(Ok(None)), &cfg), Err(closed_error()));

    // closing twice is not an error
    assert_eq!(pool.close(), Ok(()));
}

#[test]
fn handle_pool_refresh_rebuilds_from_old_and_new() {
    let cfg = default_config();
    let engine = handle_pool_refresh(
        vec!["{\"txn\":1}".to_string()],
        vec!["{\"txn\":2}".to_string()],
        &cfg,
    )
    .unwrap();
    assert_eq!(engine.transactions.txns, vec!["{\"txn\":1}".to_string(), "{\"txn\":2}".to_string()]);
    assert!(engine.node_weights.is_none());
}

#[test]
fn handle_request_result_maps_every_outcome() {
    let (code, body) =
        handle_request_result(Ok((RequestResult::Reply("data".to_string()), None)));
    assert_eq!(code, ErrorCode::Success {});
    assert_eq!(body, "data");

    let (code, body) = handle_request_result(Ok((
        RequestResult::Failed(EngineFailure {
            kind: FailureKind::PoolRequestFailed,
            message: "REQNACK".to_string(),
        }),
        None,
    )));
    assert_eq!(code, ErrorCode::PoolRequestFailed { message: "REQNACK".to_string() });
    assert_eq!(body, "");

    let (code, _) = handle_request_result(Err(EngineFailure {
        kind: FailureKind::PoolTimeout,
        message: "late".to_string(),
    }));
    assert_eq!(code, ErrorCode::PoolTimeout { message: "late".to_string() });
}

#[test]
fn classification_covers_the_whole_taxonomy() {
    let cases = vec![
        (FailureKind::Config, ErrorCode::Config { message: "m".to_string() }),
        (FailureKind::Connection, ErrorCode::Connection { message: "m".to_string() }),
        (FailureKind::FileSystem, ErrorCode::FileSystem { message: "m".to_string() }),
        (FailureKind::Input, ErrorCode::Input { message: "m".to_string() }),
        (FailureKind::Resource, ErrorCode::Resource { message: "m".to_string() }),
        (FailureKind::Unavailable, ErrorCode::Unavailable { message: "m".to_string() }),
        (FailureKind::Unexpected, ErrorCode::Unexpected { message: "m".to_string() }),
        (FailureKind::Incompatible, ErrorCode::Incompatible { message: "m".to_string() }),
        (FailureKind::PoolNoConsensus, ErrorCode::PoolNoConsensus { message: "m".to_string() }),
        (
            FailureKind::PoolRequestFailed,
            ErrorCode::PoolRequestFailed { message: "m".to_string() },
        ),
        (FailureKind::PoolTimeout, ErrorCode::PoolTimeout { message: "m".to_string() }),
        (FailureKind::Resolver, ErrorCode::Resolver { message: "m".to_string() }),
    ];
    for (kind, expected) in cases {
        let got = ErrorCode::from(EngineFailure { kind, message: "m".to_string() });
        assert_eq!(got, expected);
    }
}

#[test]
fn set_config_validates_before_install() {
    let mut current = PoolConfig::default();
    let mut bad = PoolConfig::default();
    bad.ack_timeout = 0;
    assert_eq!(
        set_config(&mut current, bad),
        Err(ErrorCode::Input { message: "Invalid pool configuration".to_string() })
    );
    assert_eq!(current, PoolConfig::default());

    let mut good = PoolConfig::default();
    good.reply_timeout = 120;
    assert_eq!(set_config(&mut current, good), Ok(()));
    assert_eq!(current.reply_timeout, 120);
}

#[test]
fn set_protocol_version_accepts_known_identifiers_only() {
    let mut cfg = PoolConfig::default();
    assert_eq!(set_protocol_version(&mut cfg, 1), Ok(()));
    assert_eq!(cfg.protocol_version, ProtocolVersion::Node1_3);
    assert_eq!(set_protocol_version(&mut cfg, 2), Ok(()));
    assert_eq!(cfg.protocol_version, ProtocolVersion::Node1_4);
    assert_eq!(
        set_protocol_version(&mut cfg, 3),
        Err(ErrorCode::Input { message: "Unknown protocol version".to_string() })
    );
    assert_eq!(cfg.protocol_version, ProtocolVersion::Node1_4);
}

#[test]
fn rebuilding_an_engine_validates_both_logs() {
    let cfg = default_config();
    let empty_old = handle_pool_refresh(vec![], vec!["{}".to_string()], &cfg);
    assert_eq!(
        empty_old,
        Err(ErrorCode::Input { message: "No genesis transactions".to_string() })
    );
    let bad_old = handle_pool_refresh(vec!["nope".to_string()], vec![], &cfg);
    assert_eq!(
        bad_old,
        Err(ErrorCode::Input {
            message: "Genesis transaction is not well-formed JSON".to_string()
        })
    );
    let bad_new = handle_pool_refresh(vec!["{}".to_string()], vec!["nope".to_string()], &cfg);
    assert_eq!(
        bad_new,
        Err(ErrorCode::Input {
            message: "Genesis transaction is not well-formed JSON".to_string()
        })
    );
}
