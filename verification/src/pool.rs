//! The pool client: owns a replaceable handle to a live network-engine
//! instance and bridges the engine's callback completions into single
//! results.  The engine itself is an external collaborator: it executes a
//! request against the validator node set and reports exactly one outcome per
//! operation.  Each operation here takes that reported outcome as an explicit
//! event, checks the pool's open/closed state, and classifies the outcome for
//! the caller; the surrounding application runs the engine and hands the
//! events in.

use vstd::prelude::*;
use crate::config::PoolConfig;
use crate::error::{
    ErrorCode, EngineFailure, classify, is_closed_err, closed_err, is_channel_err, channel_err,
    is_already_used_err,
};
use crate::genesis::{PoolTransactions, from_json, from_json_transactions, split_nonempty_lines};
use crate::requests::{Request, RequestMethod};
use crate::rendezvous::Rendezvous;
use crate::text::{joined, view_lines, join_lines};
use crate::trusted::json_well_formed;

verus! {

/// A per-node weight biasing which and how many nodes the engine consults.
#[derive(Debug, Clone, PartialEq, Eq)]
pub struct NodeWeight {
    pub alias: String,
    pub weight: u64,
}

/// The client's model of one live network-engine instance: the configuration
/// and transaction log it was built from, and the node weights it was given.
#[derive(Debug, Clone, PartialEq, Eq)]
pub struct Engine {
    pub config: PoolConfig,
    pub transactions: PoolTransactions,
    pub node_weights: Option<Vec<NodeWeight>>,
}

/// The pool handle: an open pool owns one live engine; a closed pool owns
/// none, and every operation on it fails with the closed-resource error.
#[derive(Debug, Clone, PartialEq, Eq)]
pub struct Pool {
    pub pool: Option<Engine>,
}

/// Where the genesis transactions come from when a pool is opened.
#[derive(Debug, Clone, PartialEq, Eq)]
pub enum GenesisSource {
    Inline(String),
    FromPath(String),
}

/// The engine's verdict on one executed request.
#[derive(Debug, Clone, PartialEq, Eq)]
pub enum RequestResult {
    Reply(String),
    Failed(EngineFailure),
}

/// Per-node timing the engine may report alongside a result, in
/// milliseconds.
#[derive(Debug, Clone, PartialEq, Eq)]
pub struct Timing {
    pub node_timings: Vec<(String, u64)>,
}

/// What the engine's completion callback delivered for a submission, or that
/// the callback was dropped without being invoked.
#[derive(Debug, PartialEq, Eq)]
pub enum SubmitEvent {
    Completed(Result<(RequestResult, Option<Timing>), EngineFailure>),
    Dropped,
}

/// What the engine's completion callback delivered for a status query.
#[derive(Debug, PartialEq, Eq)]
pub enum StatusEvent {
    Completed(Result<String, EngineFailure>),
    Dropped,
}

/// What the engine reported for a refresh: no delta, a delta of new
/// transaction lines, or a failure; or that the callback was dropped.
#[derive(Debug, PartialEq, Eq)]
pub enum RefreshEvent {
    Completed(Result<Option<Vec<String>>, EngineFailure>),
    Dropped,
}

impl Pool {
    /// An open pool's engine holds a well-formed transaction log.
    pub open spec fn wf(&self) -> bool {
        self.pool matches Some(e) ==> e.transactions.wf()
    }
}

/// Chooses the genesis source for opening a pool.  Exactly one of the inline
/// transactions or the file path is needed; when both are supplied the inline
/// transactions take precedence.  Supplying neither is an `Input` error.
pub fn select_genesis_source(transactions: Option<String>, transactions_path: Option<String>) -> (r:
    Result<GenesisSource, ErrorCode>)
    ensures
        transactions matches Some(t) ==> r == Ok::<GenesisSource, ErrorCode>(
            GenesisSource::Inline(t),
        ),
        transactions_path matches Some(p) ==> (transactions is None ==> r == Ok::<
            GenesisSource,
            ErrorCode,
        >(GenesisSource::FromPath(p))),
        transactions is None && transactions_path is None ==> (r matches Err(e)
            && e matches ErrorCode::Input { message } && message@
            == "Invalid pool create parameters: must provide transactions or transactions_path"@),
{
    match transactions {
        Some(t) => Ok(GenesisSource::Inline(t)),
        None => match transactions_path {
            Some(p) => Ok(GenesisSource::FromPath(p)),
            None => Err(
                ErrorCode::Input {
                    message:
                        "Invalid pool create parameters: must provide transactions or transactions_path".to_owned(
                    ),
                },
            ),
        },
    }
}

/// Opens a pool from an inline genesis document, under the given
/// configuration snapshot and node weights.  Fails `Input` on malformed
/// genesis data; on success the live engine holds exactly the document's
/// non-empty lines, in order.
pub fn open_pool(
    transactions: String,
    node_weights: Option<Vec<NodeWeight>>,
    config: &PoolConfig,
) -> (r: Result<Pool, ErrorCode>)
    ensures
        r is Ok <==> split_nonempty_lines(transactions@).len() > 0 && (forall|i: int|
            0 <= i < split_nonempty_lines(transactions@).len() ==> json_well_formed(
                #[trigger] split_nonempty_lines(transactions@)[i],
            )),
        r matches Ok(p) ==> (p.pool matches Some(e) && e.config == *config && e.transactions@
            == split_nonempty_lines(transactions@) && e.node_weights == node_weights) && p.wf(),
        r matches Err(e) ==> e matches ErrorCode::Input { .. },
{
    let txns = from_json(transactions.as_str())?;
    Ok(Pool { pool: Some(Engine { config: *config, transactions: txns, node_weights }) })
}

/// Rebuilds an engine from a known transaction log extended by newly
/// reported transactions, under the given configuration snapshot: the order
/// of the old log is kept and the new lines follow it.  Fails `Input` when
/// the old log is empty or a line is malformed.
pub fn handle_pool_refresh(
    old_txns: Vec<String>,
    new_txns: Vec<String>,
    config: &PoolConfig,
) -> (r: Result<Engine, ErrorCode>)
    ensures
        r is Ok <==> old_txns@.len() > 0 && (forall|i: int|
            0 <= i < old_txns@.len() ==> json_well_formed(old_txns@[i]@)) && (forall|i: int|
            0 <= i < new_txns@.len() ==> json_well_formed(new_txns@[i]@)),
        r matches Ok(e) ==> e.transactions@ == view_lines(old_txns@) + view_lines(new_txns@)
            && e.transactions.wf() && e.node_weights is None && e.config == *config,
        old_txns@.len() == 0 ==> (r matches Err(e) && e matches ErrorCode::Input { message }
            && message@ == "No genesis transactions"@),
        old_txns@.len() > 0 && !(forall|i: int|
            0 <= i < old_txns@.len() ==> json_well_formed(old_txns@[i]@)) ==> (r matches Err(e)
            && e matches ErrorCode::Input { message } && message@
            == "Genesis transaction is not well-formed JSON"@),
        old_txns@.len() > 0 && (forall|i: int|
            0 <= i < old_txns@.len() ==> json_well_formed(old_txns@[i]@)) && !(forall|i: int|
            0 <= i < new_txns@.len() ==> json_well_formed(new_txns@[i]@)) ==> (r matches Err(e)
            && e matches ErrorCode::Input { message } && message@
            == "Genesis transaction is not well-formed JSON"@),
{
    let mut txns = from_json_transactions(old_txns)?;
    txns.extend_from_json(&new_txns)?;
    Ok(Engine { config: *config, transactions: txns, node_weights: None })
}

/// What a completed or abandoned submission yields to the caller: the reply
/// body on success, the classified failure otherwise, and the
/// broken-rendezvous error when the callback was dropped.
pub open spec fn submit_outcome(event: SubmitEvent, r: Result<String, ErrorCode>) -> bool {
    match event {
        SubmitEvent::Dropped => r matches Err(e) && is_channel_err(e),
        SubmitEvent::Completed(result) => match result {
            Ok((RequestResult::Reply(body), _)) => r == Ok::<String, ErrorCode>(body),
            Ok((RequestResult::Failed(f), _)) => r == Err::<String, ErrorCode>(classify(f)),
            Err(f) => r == Err::<String, ErrorCode>(classify(f)),
        },
    }
}

/// What a status query yields to the caller for a given engine event.
pub open spec fn status_outcome(event: StatusEvent, r: Result<String, ErrorCode>) -> bool {
    match event {
        StatusEvent::Dropped => r matches Err(e) && is_channel_err(e),
        StatusEvent::Completed(result) => match result {
            Ok(status) => r == Ok::<String, ErrorCode>(status),
            Err(f) => r == Err::<String, ErrorCode>(classify(f)),
        },
    }
}

/// The contract of a submission against a pool: a consumed request fails
/// already-used (and is seized before the pool state is read, as the envelope
/// is single-use); a closed pool fails closed; an open pool yields the
/// classified outcome of the request's own event.
pub open spec fn submit_post(
    p: Pool,
    was_consumed: bool,
    event: SubmitEvent,
    r: Result<String, ErrorCode>,
) -> bool {
    if was_consumed {
        r matches Err(e) && is_already_used_err(e)
    } else if p.pool is None {
        r matches Err(e) && is_closed_err(e)
    } else {
        submit_outcome(event, r)
    }
}

/// The contract of a status query against a pool.
pub open spec fn status_post(p: Pool, event: StatusEvent, r: Result<String, ErrorCode>) -> bool {
    if p.pool is None {
        r matches Err(e) && is_closed_err(e)
    } else {
        status_outcome(event, r)
    }
}

/// The contract of a transaction-log query against a pool: the newline-joined
/// ordered log of the live engine.
pub open spec fn transactions_post(p: Pool, r: Result<String, ErrorCode>) -> bool {
    match p.pool {
        None => r matches Err(e) && is_closed_err(e),
        Some(en) => r matches Ok(t) && t@ == joined(en.transactions@),
    }
}

/// The contract of a refresh: a closed pool fails closed; a failure or a
/// dropped callback leaves the pool unchanged; no reported delta leaves the
/// very same engine installed; a well-formed delta installs a new engine
/// whose log is the old log followed by the delta, in order, under the given
/// configuration snapshot.
pub open spec fn refresh_post(
    p: Pool,
    config: PoolConfig,
    event: RefreshEvent,
    p2: Pool,
    r: Result<(), ErrorCode>,
) -> bool {
    if p.pool is None {
        (r matches Err(e) && is_closed_err(e)) && p2 == p
    } else {
        match event {
            RefreshEvent::Dropped => (r matches Err(e) && is_channel_err(e)) && p2 == p,
            RefreshEvent::Completed(res) => match res {
                Err(f) => r == Err::<(), ErrorCode>(classify(f)) && p2 == p,
                Ok(None) => r == Ok::<(), ErrorCode>(()) && p2 == p,
                Ok(Some(d)) => {
                    if forall|i: int| 0 <= i < d@.len() ==> json_well_formed(d@[i]@) {
                        r == Ok::<(), ErrorCode>(()) && (p2.pool matches Some(e2)
                            && e2.transactions@ == p.pool->Some_0.transactions@ + view_lines(d@)
                            && e2.node_weights is None && e2.config == config)
                    } else {
                        (r matches Err(e) && e matches ErrorCode::Input { message } && message@
                            == "Genesis transaction is not well-formed JSON"@) && p2 == p
                    }
                },
            },
        }
    }
}

/// Bridges one submission outcome through a rendezvous created for this
/// call alone.
fn bridge_submission(event: SubmitEvent) -> (r: Result<String, ErrorCode>)
    ensures
        submit_outcome(event, r),
{
    let mut rz: Rendezvous<(ErrorCode, String)> = Rendezvous::new();
    match event {
        SubmitEvent::Completed(result) => {
            let outcome = handle_request_result(result);
            rz.send(outcome);
        },
        SubmitEvent::Dropped => {},
    }
    let outcome = rz.receive()?;
    let (errcode, reply) = outcome;
    if errcode.is_success() {
        Ok(reply)
    } else {
        Err(errcode)
    }
}

impl Pool {
    /// Submits a consensus-backed request: seizes the single-use request,
    /// hands it to the live engine, and awaits exactly one callback outcome
    /// through a rendezvous created for this call alone.
    pub fn submit_request(&self, request: &mut Request, event: SubmitEvent) -> (r: Result<
        String,
        ErrorCode,
    >)
        ensures
            submit_post(*self, old(request).consumed(), event, r),
            old(request).consumed() ==> *final(request) == *old(request),
            !old(request).consumed() ==> final(request).consumed(),
    {
        let _req = request.take()?;
        match &self.pool {
            Some(_) => {},
            None => {
                return Err(closed_err());
            },
        }
        bridge_submission(event)
    }

    /// Submits a targeted action: first stamps the request's submission
    /// method as a broadcast to the given node subset with the optional
    /// deadline, then submits it like any other request.
    pub fn submit_action(
        &self,
        request: &mut Request,
        node_aliases: Option<Vec<String>>,
        timeout: Option<i64>,
        event: SubmitEvent,
    ) -> (r: Result<String, ErrorCode>)
        ensures
            submit_post(*self, old(request).consumed(), event, r),
            old(request).consumed() ==> *final(request) == *old(request),
            !old(request).consumed() ==> final(request).consumed(),
    {
        request.set_method(RequestMethod::Full { node_aliases, timeout })?;
        let _req = request.take()?;
        match &self.pool {
            Some(_) => {},
            None => {
                return Err(closed_err());
            },
        }
        bridge_submission(event)
    }

    /// Queries the live engine's status document, bridged through a fresh
    /// rendezvous.
    pub fn get_status(&self, event: StatusEvent) -> (r: Result<String, ErrorCode>)
        ensures
            status_post(*self, event, r),
    {
        match &self.pool {
            Some(_) => {},
            None => {
                return Err(closed_err());
            },
        }
        let mut rz: Rendezvous<(ErrorCode, String)> = Rendezvous::new();
        match event {
            StatusEvent::Completed(result) => match result {
                Ok(status) => {
                    rz.send((ErrorCode::Success {}, status));
                },
                Err(f) => {
                    rz.send((ErrorCode::from(f), String::new()));
                },
            },
            StatusEvent::Dropped => {},
        }
        let outcome = rz.receive()?;
        let (errcode, reply) = outcome;
        if errcode.is_success() {
            Ok(reply)
        } else {
            Err(errcode)
        }
    }

    /// The newline-joined ordered transaction log of the live engine.
    pub fn get_transactions(&self) -> (r: Result<String, ErrorCode>)
        ensures
            transactions_post(*self, r),
    {
        match &self.pool {
            Some(engine) => Ok(join_lines(&engine.transactions.txns)),
            None => Err(closed_err()),
        }
    }

    /// Incorporates an engine-reported refresh outcome.  With no reported
    /// delta the live engine is left untouched; with a delta a brand-new
    /// engine is built from the old log extended by the delta, under the
    /// given configuration snapshot, and atomically installed.
    pub fn refresh(&mut self, event: RefreshEvent, config: &PoolConfig) -> (r: Result<
        (),
        ErrorCode,
    >)
        ensures
            refresh_post(*old(self), *config, event, *final(self), r),
            old(self).wf() ==> final(self).wf(),
    {
        let engine = match self.pool.take() {
            Some(e) => e,
            None => {
                return Err(closed_err());
            },
        };
        match event {
            RefreshEvent::Dropped => {
                self.pool = Some(engine);
                proof {
                    assert(*self =~= *old(self));
                }
                Err(channel_err())
            },
            RefreshEvent::Completed(res) => match res {
                Err(f) => {
                    self.pool = Some(engine);
                    proof {
                        assert(*self =~= *old(self));
                    }
                    Err(ErrorCode::from(f))
                },
                Ok(None) => {
                    self.pool = Some(engine);
                    proof {
                        assert(*self =~= *old(self));
                    }
                    Ok(())
                },
                Ok(Some(d)) => {
                    let Engine { config: old_config, transactions: mut txns, node_weights } =
                        engine;
                    match txns.extend_from_json(&d) {
                        Ok(()) => {
                            self.pool = Some(
                                Engine { config: *config, transactions: txns, node_weights: None },
                            );
                            Ok(())
                        },
                        Err(e) => {
                            self.pool = Some(
                                Engine { config: old_config, transactions: txns, node_weights },
                            );
                            proof {
                                assert(*self =~= *old(self));
                            }
                            Err(e)
                        },
                    }
                },
            },
        }
    }

    /// Closes the pool: takes and drops the live engine.  Idempotent —
    /// closing an already-closed pool is not an error.
    pub fn close(&mut self) -> (r: Result<(), ErrorCode>)
        ensures
            r is Ok,
            final(self).pool is None,
    {
        let _ = self.pool.take();
        Ok(())
    }
}

/// Classifies one completed engine outcome: a reply yields the success
/// sentinel and the reply body; every failure yields its classified error and
/// an empty body.
pub open spec fn handle_request_post(
    result: Result<(RequestResult, Option<Timing>), EngineFailure>,
    r: (ErrorCode, String),
) -> bool {
    match result {
        Ok((RequestResult::Reply(body), _)) => r.0 == (ErrorCode::Success {}) && r.1 == body,
        Ok((RequestResult::Failed(f), _)) => r.0 == classify(f) && r.1@ == Seq::<char>::empty(),
        Err(f) => r.0 == classify(f) && r.1@ == Seq::<char>::empty(),
    }
}

/// Maps a raw engine outcome to the internal (code, reply) pair used while
/// bridging a submission callback.
pub fn handle_request_result(result: Result<(RequestResult, Option<Timing>), EngineFailure>) -> (r:
    (ErrorCode, String))
    ensures
        handle_request_post(result, r),
{
    match result {
        Ok((reply, _timing)) => match reply {
            RequestResult::Reply(body) => (ErrorCode::Success {}, body),
            RequestResult::Failed(err) => {
                let code = ErrorCode::from(err);
                (code, String::new())
            },
        },
        Err(err) => {
            let code = ErrorCode::from(err);
            (code, String::new())
        },
    }
}

/// The internal success sentinel is never surfaced to a caller as an error:
/// every error a submission yields is a genuine member of the taxonomy.
pub proof fn lemma_success_never_surfaced(event: SubmitEvent, r: Result<String, ErrorCode>)
    requires
        submit_outcome(event, r),
    ensures
        r matches Err(e) ==> !(e is Success),
{
    match event {
        SubmitEvent::Completed(result) => match result {
            Ok((RequestResult::Failed(f), _)) => {
                assert(!(classify(f) is Success));
            },
            Err(f) => {
                assert(!(classify(f) is Success));
            },
            _ => {},
        },
        SubmitEvent::Dropped => {},
    }
}

/// Rendezvous isolation: concurrent submissions on independent prepared
/// requests never observe each other's replies.  Each submission's result is
/// determined by its own completion event alone, so two submissions whose
/// engines replied with bodies of their own each return exactly their own
/// body.
pub proof fn lemma_submission_isolation(
    e1: SubmitEvent,
    e2: SubmitEvent,
    r1: Result<String, ErrorCode>,
    r2: Result<String, ErrorCode>,
    b1: String,
    b2: String,
)
    requires
        submit_outcome(e1, r1),
        submit_outcome(e2, r2),
        e1 matches SubmitEvent::Completed(res1) && (res1 matches Ok(p1) && p1.0
            == RequestResult::Reply(b1)),
        e2 matches SubmitEvent::Completed(res2) && (res2 matches Ok(p2) && p2.0
            == RequestResult::Reply(b2)),
    ensures
        r1 == Ok::<String, ErrorCode>(b1),
        r2 == Ok::<String, ErrorCode>(b2),
{
}

/// A closed pool rejects submit, status, transaction-log and refresh
/// operations alike, each with the closed-resource error, and leaves its
/// state untouched.
pub proof fn lemma_closed_pool_rejects_all(
    p: Pool,
    se: SubmitEvent,
    ste: StatusEvent,
    re: RefreshEvent,
    config: PoolConfig,
    p2: Pool,
    rs: Result<String, ErrorCode>,
    rst: Result<String, ErrorCode>,
    rtx: Result<String, ErrorCode>,
    rr: Result<(), ErrorCode>,
)
    requires
        p.pool is None,
        submit_post(p, false, se, rs),
        status_post(p, ste, rst),
        transactions_post(p, rtx),
        refresh_post(p, config, re, p2, rr),
    ensures
        rs matches Err(e) && is_closed_err(e),
        rst matches Err(e) && is_closed_err(e),
        rtx matches Err(e) && is_closed_err(e),
        (rr matches Err(e) && is_closed_err(e)) && p2 == p,
{
}

/// Refresh is idempotent when the engine reports no delta: the pool keeps
/// the very same live engine, and a transaction-log snapshot taken before
/// the refresh equals one taken after it.
pub proof fn lemma_refresh_no_delta_idempotent(
    p: Pool,
    config: PoolConfig,
    p2: Pool,
    r: Result<(), ErrorCode>,
    t1: Result<String, ErrorCode>,
    t2: Result<String, ErrorCode>,
)
    requires
        p.pool is Some,
        refresh_post(p, config, RefreshEvent::Completed(Ok(None)), p2, r),
        transactions_post(p, t1),
        transactions_post(p2, t2),
    ensures
        r is Ok,
        p2 == p,
        t1 matches Ok(s1) && (t2 matches Ok(s2) && s1@ == s2@),
{
}

/// Refresh with a reported delta produces a transaction log equal to the old
/// log's elements followed by the delta's elements, in order, with nothing
/// dropped, duplicated or reordered.
pub proof fn lemma_refresh_appends_in_order(
    p: Pool,
    config: PoolConfig,
    d: Vec<String>,
    p2: Pool,
    r: Result<(), ErrorCode>,
)
    requires
        p.pool is Some,
        forall|i: int| 0 <= i < d@.len() ==> json_well_formed(d@[i]@),
        refresh_post(p, config, RefreshEvent::Completed(Ok(Some(d))), p2, r),
    ensures
        r is Ok,
        p2.pool matches Some(e2) && e2.transactions@ == p.pool->Some_0.transactions@ + view_lines(
            d@,
        ),
{
}

} // verus!
