//! The request builder: one constructor per ledger operation kind, each a
//! pure function from typed, validated inputs to a prepared request.
//! Malformed identifiers and malformed embedded JSON are rejected with an
//! `Input` error naming the offending field, before any other work happens.

use vstd::prelude::*;
use crate::config::{PoolConfig, ProtocolVersion};
use crate::error::ErrorCode;
use crate::ids::{is_valid_did, validate_did, is_valid_object_id, validate_object_id};
use crate::requests::{
    Field, FieldVal, FieldValV, Request, RequestBody, RequestMethod, PreparedRequest, fields_view,
    raw_fields_wf,
};
use crate::text::{dec_text, escape_text, append_u64, escape_into, hex_text, hex_of_bytes};
use crate::trusted::{json_well_formed, json_text_well_formed, sha256, sha256_of};
use vstd::string::StringExecFns;

verus! {

/// The ledger a transaction is read from.
#[derive(Debug, Clone, Copy, PartialEq, Eq, Structural)]
pub enum LedgerType {
    POOL,
    DOMAIN,
    CONFIG,
}

impl LedgerType {
    /// The numeric ledger identifier on the wire.
    pub open spec fn spec_id(&self) -> u64 {
        match self {
            LedgerType::POOL => 0,
            LedgerType::DOMAIN => 1,
            LedgerType::CONFIG => 2,
        }
    }

    #[verifier::when_used_as_spec(spec_id)]
    pub fn id(&self) -> (r: u64)
        ensures
            r == self.spec_id(),
    {
        match self {
            LedgerType::POOL => 0,
            LedgerType::DOMAIN => 1,
            LedgerType::CONFIG => 2,
        }
    }
}

/// A stateless factory for request bodies under one protocol version.
#[derive(Debug, Clone, Copy, PartialEq, Eq, Structural)]
pub struct RequestBuilder {
    pub protocol_version: ProtocolVersion,
}

impl RequestBuilder {
    pub fn new(protocol_version: ProtocolVersion) -> (r: RequestBuilder)
        ensures
            r.protocol_version == protocol_version,
    {
        RequestBuilder { protocol_version }
    }
}

/// A request builder reading the given configuration snapshot.
pub fn get_request_builder(config: &PoolConfig) -> (r: Result<RequestBuilder, ErrorCode>)
    ensures
        r matches Ok(b) && b.protocol_version == config.protocol_version,
{
    Ok(RequestBuilder::new(config.protocol_version))
}

/// A freshly built, undecorated, unconsumed request with the given body.
pub open spec fn fresh_request(
    pv: u64,
    identifier: Option<String>,
    txn_type: Seq<char>,
    fields: Seq<(Seq<char>, FieldValV)>,
    r: Request,
) -> bool {
    &&& r.req matches Some(p) && p.method == RequestMethod::Default && p.signature is None
        && p.multi_signatures@.len() == 0 && p.endorser is None && p.taa_acceptance is None && (
    p.body matches RequestBody::Built { protocol_version, identifier: rid, txn_type: tt, fields: fs }
        && protocol_version == pv && rid == identifier && tt@ == txn_type && fields_view(fs@)
        == fields)
}

/// The field contributed by an optional string input, in place.
pub open spec fn opt_str_field(name: Seq<char>, v: Option<String>) -> Seq<(Seq<char>, FieldValV)> {
    match v {
        Some(s) => seq![(name, FieldValV::S(s@))],
        None => Seq::empty(),
    }
}

/// The field contributed by an optional embedded JSON input, in place.
pub open spec fn opt_raw_field(name: Seq<char>, v: Option<String>) -> Seq<(Seq<char>, FieldValV)> {
    match v {
        Some(s) => seq![(name, FieldValV::R(s@))],
        None => Seq::empty(),
    }
}

/// The field contributed by an optional unsigned number input, in place.
pub open spec fn opt_u64_field(name: Seq<char>, v: Option<u64>) -> Seq<(Seq<char>, FieldValV)> {
    match v {
        Some(n) => seq![(name, FieldValV::U(n))],
        None => Seq::empty(),
    }
}

/// The field contributed by an optional signed number input, in place.
pub open spec fn opt_i64_field(name: Seq<char>, v: Option<i64>) -> Seq<(Seq<char>, FieldValV)> {
    match v {
        Some(n) => seq![(name, FieldValV::I(n))],
        None => Seq::empty(),
    }
}

/// The field contributed by an optional sequence-number input, in place.
pub open spec fn opt_i32_field(name: Seq<char>, v: Option<i32>) -> Seq<(Seq<char>, FieldValV)> {
    match v {
        Some(n) => seq![(name, FieldValV::I(n as i64))],
        None => Seq::empty(),
    }
}

proof fn lemma_raw_fields_wf_push(fs: Seq<Field>, f: Field)
    requires
        raw_fields_wf(fs),
        f.value matches FieldVal::Raw(t) ==> json_well_formed(t@),
    ensures
        raw_fields_wf(fs.push(f)),
{
    assert forall|i: int|
        0 <= i < fs.push(f).len() implies (#[trigger] fs.push(f)[i].value matches FieldVal::Raw(t)
        ==> json_well_formed(t@)) by {
        if i < fs.len() {
            assert(fs.push(f)[i] == fs[i]);
        } else {
            assert(fs.push(f)[i] == f);
        }
    }
}

fn push_str_field(fields: &mut Vec<Field>, name: &str, v: String)
    ensures
        fields_view(final(fields)@) == fields_view(old(fields)@).push((name@, FieldValV::S(v@))),
        raw_fields_wf(old(fields)@) ==> raw_fields_wf(final(fields)@),
{
    let ghost before = fields_view(fields@);
    let ghost prev = fields@;
    fields.push(Field { name: name.to_owned(), value: FieldVal::Str(v) });
    proof {
        assert(fields_view(fields@) =~= before.push((name@, fields@.last().value@)));
        if raw_fields_wf(prev) {
            lemma_raw_fields_wf_push(prev, fields@.last());
            assert(fields@ =~= prev.push(fields@.last()));
        }
    }
}

fn push_raw_field(fields: &mut Vec<Field>, name: &str, v: String)
    ensures
        fields_view(final(fields)@) == fields_view(old(fields)@).push((name@, FieldValV::R(v@))),
        raw_fields_wf(old(fields)@) && json_well_formed(v@) ==> raw_fields_wf(final(fields)@),
{
    let ghost before = fields_view(fields@);
    let ghost prev = fields@;
    let ghost vv = v@;
    fields.push(Field { name: name.to_owned(), value: FieldVal::Raw(v) });
    proof {
        assert(fields_view(fields@) =~= before.push((name@, fields@.last().value@)));
        if raw_fields_wf(prev) && json_well_formed(vv) {
            lemma_raw_fields_wf_push(prev, fields@.last());
            assert(fields@ =~= prev.push(fields@.last()));
        }
    }
}

fn push_u64_field(fields: &mut Vec<Field>, name: &str, v: u64)
    ensures
        fields_view(final(fields)@) == fields_view(old(fields)@).push((name@, FieldValV::U(v))),
        raw_fields_wf(old(fields)@) ==> raw_fields_wf(final(fields)@),
{
    let ghost before = fields_view(fields@);
    let ghost prev = fields@;
    fields.push(Field { name: name.to_owned(), value: FieldVal::U64(v) });
    proof {
        assert(fields_view(fields@) =~= before.push((name@, fields@.last().value@)));
        if raw_fields_wf(prev) {
            lemma_raw_fields_wf_push(prev, fields@.last());
            assert(fields@ =~= prev.push(fields@.last()));
        }
    }
}

fn push_i64_field(fields: &mut Vec<Field>, name: &str, v: i64)
    ensures
        fields_view(final(fields)@) == fields_view(old(fields)@).push((name@, FieldValV::I(v))),
        raw_fields_wf(old(fields)@) ==> raw_fields_wf(final(fields)@),
{
    let ghost before = fields_view(fields@);
    let ghost prev = fields@;
    fields.push(Field { name: name.to_owned(), value: FieldVal::I64(v) });
    proof {
        assert(fields_view(fields@) =~= before.push((name@, fields@.last().value@)));
        if raw_fields_wf(prev) {
            lemma_raw_fields_wf_push(prev, fields@.last());
            assert(fields@ =~= prev.push(fields@.last()));
        }
    }
}

fn push_bool_field(fields: &mut Vec<Field>, name: &str, v: bool)
    ensures
        fields_view(final(fields)@) == fields_view(old(fields)@).push((name@, FieldValV::B(v))),
        raw_fields_wf(old(fields)@) ==> raw_fields_wf(final(fields)@),
{
    let ghost before = fields_view(fields@);
    let ghost prev = fields@;
    fields.push(Field { name: name.to_owned(), value: FieldVal::Bool(v) });
    proof {
        assert(fields_view(fields@) =~= before.push((name@, fields@.last().value@)));
        if raw_fields_wf(prev) {
            lemma_raw_fields_wf_push(prev, fields@.last());
            assert(fields@ =~= prev.push(fields@.last()));
        }
    }
}

fn push_opt_str_field(fields: &mut Vec<Field>, name: &str, v: Option<String>)
    ensures
        fields_view(final(fields)@) == fields_view(old(fields)@) + opt_str_field(name@, v),
        raw_fields_wf(old(fields)@) ==> raw_fields_wf(final(fields)@),
{
    let ghost before = fields_view(fields@);
    match v {
        Some(s) => {
            push_str_field(fields, name, s);
            proof {
                assert(fields_view(fields@) =~= before + opt_str_field(name@, v));
            }
        },
        None => {
            proof {
                assert(fields_view(fields@) =~= before + opt_str_field(name@, v));
            }
        },
    }
}

fn push_opt_raw_field(fields: &mut Vec<Field>, name: &str, v: Option<String>)
    ensures
        fields_view(final(fields)@) == fields_view(old(fields)@) + opt_raw_field(name@, v),
        raw_fields_wf(old(fields)@) && (v matches Some(s) ==> json_well_formed(s@))
            ==> raw_fields_wf(final(fields)@),
{
    let ghost before = fields_view(fields@);
    match v {
        Some(s) => {
            push_raw_field(fields, name, s);
            proof {
                assert(fields_view(fields@) =~= before + opt_raw_field(name@, v));
            }
        },
        None => {
            proof {
                assert(fields_view(fields@) =~= before + opt_raw_field(name@, v));
            }
        },
    }
}

fn push_opt_u64_field(fields: &mut Vec<Field>, name: &str, v: Option<u64>)
    ensures
        fields_view(final(fields)@) == fields_view(old(fields)@) + opt_u64_field(name@, v),
        raw_fields_wf(old(fields)@) ==> raw_fields_wf(final(fields)@),
{
    let ghost before = fields_view(fields@);
    match v {
        Some(n) => {
            push_u64_field(fields, name, n);
            proof {
                assert(fields_view(fields@) =~= before + opt_u64_field(name@, v));
            }
        },
        None => {
            proof {
                assert(fields_view(fields@) =~= before + opt_u64_field(name@, v));
            }
        },
    }
}

fn push_opt_i64_field(fields: &mut Vec<Field>, name: &str, v: Option<i64>)
    ensures
        fields_view(final(fields)@) == fields_view(old(fields)@) + opt_i64_field(name@, v),
        raw_fields_wf(old(fields)@) ==> raw_fields_wf(final(fields)@),
{
    let ghost before = fields_view(fields@);
    match v {
        Some(n) => {
            push_i64_field(fields, name, n);
            proof {
                assert(fields_view(fields@) =~= before + opt_i64_field(name@, v));
            }
        },
        None => {
            proof {
                assert(fields_view(fields@) =~= before + opt_i64_field(name@, v));
            }
        },
    }
}

fn push_opt_i32_field(fields: &mut Vec<Field>, name: &str, v: Option<i32>)
    ensures
        fields_view(final(fields)@) == fields_view(old(fields)@) + opt_i32_field(name@, v),
        raw_fields_wf(old(fields)@) ==> raw_fields_wf(final(fields)@),
{
    let ghost before = fields_view(fields@);
    match v {
        Some(n) => {
            push_i64_field(fields, name, n as i64);
            proof {
                assert(fields_view(fields@) =~= before + opt_i32_field(name@, v));
            }
        },
        None => {
            proof {
                assert(fields_view(fields@) =~= before + opt_i32_field(name@, v));
            }
        },
    }
}

/// Assembles a fresh request from the builder's protocol version and the
/// given identifier, operation type and fields.
fn make_request(pv: u64, identifier: Option<String>, txn_type: &str, fields: Vec<Field>) -> (r:
    Request)
    ensures
        fresh_request(pv, identifier, txn_type@, fields_view(fields@), r),
        raw_fields_wf(fields@) ==> r.wf(),
{
    Request::new(
        PreparedRequest {
            body: RequestBody::Built {
                protocol_version: pv,
                identifier,
                txn_type: txn_type.to_owned(),
                fields,
            },
            method: RequestMethod::Default,
            signature: None,
            multi_signatures: Vec::new(),
            endorser: None,
            taa_acceptance: None,
        },
    )
}

fn validate_submitter(submitter_did: &String) -> (r: Result<(), ErrorCode>)
    ensures
        r is Ok <==> is_valid_did(submitter_did@),
        r matches Err(e) ==> (e matches ErrorCode::Input { message } && message@
            == "Invalid submitter DID"@),
{
    if validate_did(submitter_did.as_str()) {
        Ok(())
    } else {
        Err(ErrorCode::Input { message: "Invalid submitter DID".to_owned() })
    }
}

/// A missing optional submitter is accepted; a present one must be valid.
pub open spec fn opt_did_ok(v: Option<String>) -> bool {
    v matches Some(s) ==> is_valid_did(s@)
}

fn validate_opt_submitter(submitter_did: &Option<String>) -> (r: Result<(), ErrorCode>)
    ensures
        r is Ok <==> opt_did_ok(*submitter_did),
        r matches Err(e) ==> (e matches ErrorCode::Input { message } && message@
            == "Invalid submitter DID"@),
{
    match submitter_did {
        Some(did) => {
            if validate_did(did.as_str()) {
                Ok(())
            } else {
                Err(ErrorCode::Input { message: "Invalid submitter DID".to_owned() })
            }
        },
        None => Ok(()),
    }
}

/// The serialized transaction-author-agreement acceptance record.
pub open spec fn taa_acceptance_text(mechanism: Seq<char>, digest: Seq<char>, time_rounded: nat) -> Seq<char> {
    "{\"mechanism\":\""@ + escape_text(mechanism) + "\",\"taaDigest\":\""@ + escape_text(digest)
        + "\",\"time\":"@ + dec_text(time_rounded) + "}"@
}

/// The agreement digest computed from the agreement text and version: the
/// SHA-256 of the version followed by the text, in lower-case hexadecimal.
pub open spec fn taa_digest_text(text: Seq<char>, version: Seq<char>) -> Seq<char> {
    hex_text(sha256_of(vstd::utf8::encode_utf8(version + text)))
}

/// The acceptance timestamp rounded down to the start of its day.
pub open spec fn rounded_time(time: u64) -> nat {
    ((time as int) - (time as int) % 86400) as nat
}

/// A ledger role accepted in an identity-registration request.
pub open spec fn is_known_role(s: Seq<char>) -> bool {
    s == "TRUSTEE"@ || s == "STEWARD"@ || s == "ENDORSER"@ || s == "NETWORK_MONITOR"@
}

/// A missing role is accepted; a present one must be a known role name.
pub open spec fn opt_role_ok(v: Option<String>) -> bool {
    v matches Some(s) ==> is_known_role(s@)
}

/// The stateless request factory; it reads one configuration snapshot taken
/// when it is created.
#[derive(Debug, Clone, Copy, PartialEq, Eq, Structural)]
pub struct Ledger {
    pub config: PoolConfig,
}

impl Ledger {
    pub fn new(config: PoolConfig) -> (r: Ledger)
        ensures
            r.config == config,
    {
        Ledger { config }
    }

    /// An identity-registration request.
    pub fn build_nym_request(
        &self,
        submitter_did: String,
        target_did: String,
        verkey: Option<String>,
        alias: Option<String>,
        role: Option<String>,
        diddoc_content: Option<String>,
        version: Option<i32>,
    ) -> (r: Result<Request, ErrorCode>)
        ensures
            r matches Ok(req) ==> is_valid_did(submitter_did@) && is_valid_did(target_did@)
                && opt_role_ok(role) && (diddoc_content matches Some(d) ==> json_well_formed(d@))
                && req.wf() && fresh_request(
                self.config.protocol_version.spec_id(),
                Some(submitter_did),
                "1"@,
                seq![("dest"@, FieldValV::S(target_did@))] + opt_str_field("verkey"@, verkey)
                    + opt_str_field("alias"@, alias) + opt_str_field("role"@, role)
                    + opt_raw_field("diddocContent"@, diddoc_content) + opt_i32_field(
                    "version"@,
                    version,
                ),
                req,
            ),
            !is_valid_did(submitter_did@) ==> (r matches Err(e) && e matches ErrorCode::Input {
                message,
            } && message@ == "Invalid submitter DID"@),
            is_valid_did(submitter_did@) && !is_valid_did(target_did@) ==> (r matches Err(e)
                && e matches ErrorCode::Input { message } && message@ == "Invalid target DID"@),
            is_valid_did(submitter_did@) && is_valid_did(target_did@) && !opt_role_ok(role) ==> (
            r matches Err(e) && e matches ErrorCode::Input { message } && message@
                == "Invalid role"@),
            is_valid_did(submitter_did@) && is_valid_did(target_did@) && opt_role_ok(role) && (
            diddoc_content matches Some(d) && !json_well_formed(d@)) ==> (r matches Err(e)
                && e matches ErrorCode::Input { message } && message@
                == "Error deserializing raw value as JSON"@),
            is_valid_did(submitter_did@) && is_valid_did(target_did@) && opt_role_ok(role) && (
            diddoc_content matches Some(d) ==> json_well_formed(d@)) ==> r is Ok,
    {
        let builder = get_request_builder(&self.config)?;
        validate_submitter(&submitter_did)?;
        if !validate_did(target_did.as_str()) {
            return Err(ErrorCode::Input { message: "Invalid target DID".to_owned() });
        }
        match &role {
            Some(name) => {
                let known = name.eq(&"TRUSTEE".to_owned()) || name.eq(&"STEWARD".to_owned())
                    || name.eq(&"ENDORSER".to_owned()) || name.eq(&"NETWORK_MONITOR".to_owned());
                if !known {
                    return Err(ErrorCode::Input { message: "Invalid role".to_owned() });
                }
            },
            None => {},
        }
        match &diddoc_content {
            Some(d) => {
                if !json_text_well_formed(d.as_str()) {
                    return Err(ErrorCode::Input {
                        message: "Error deserializing raw value as JSON".to_owned(),
                    });
                }
            },
            None => {},
        }
        let ghost target_v = target_did@;
        let mut fields: Vec<Field> = Vec::new();
        push_str_field(&mut fields, "dest", target_did);
        proof {
            assert(fields_view(fields@) =~= seq![("dest"@, FieldValV::S(target_v))]);
        }
        push_opt_str_field(&mut fields, "verkey", verkey);
        push_opt_str_field(&mut fields, "alias", alias);
        push_opt_str_field(&mut fields, "role", role);
        push_opt_raw_field(&mut fields, "diddocContent", diddoc_content);
        push_opt_i32_field(&mut fields, "version", version);
        let req = make_request(builder.protocol_version.id(), Some(submitter_did), "1", fields);
        Ok(req)
    }

    /// An attribute-write request.
    pub fn build_attrib_request(
        &self,
        submitter_did: String,
        target_did: String,
        xhash: Option<String>,
        raw: Option<String>,
        enc: Option<String>,
    ) -> (r: Result<Request, ErrorCode>)
        ensures
            !is_valid_did(submitter_did@) ==> (r matches Err(e) && e matches ErrorCode::Input {
                message,
            } && message@ == "Invalid submitter DID"@),
            is_valid_did(submitter_did@) && !is_valid_did(target_did@) ==> (r matches Err(e)
                && e matches ErrorCode::Input { message } && message@ == "Invalid target DID"@),
            is_valid_did(submitter_did@) && is_valid_did(target_did@) && (raw matches Some(d)
                && !json_well_formed(d@)) ==> (r matches Err(e) && e matches ErrorCode::Input {
                message,
            } && message@ == "Error deserializing raw value as JSON"@),
            is_valid_did(submitter_did@) && is_valid_did(target_did@) && (raw matches Some(d)
                ==> json_well_formed(d@)) ==> (r matches Ok(req) && req.wf() && fresh_request(
                self.config.protocol_version.spec_id(),
                Some(submitter_did),
                "100"@,
                seq![("dest"@, FieldValV::S(target_did@))] + opt_str_field("hash"@, xhash)
                    + opt_raw_field("raw"@, raw) + opt_str_field("enc"@, enc),
                req,
            )),
    {
        let builder = get_request_builder(&self.config)?;
        validate_submitter(&submitter_did)?;
        if !validate_did(target_did.as_str()) {
            return Err(ErrorCode::Input { message: "Invalid target DID".to_owned() });
        }
        match &raw {
            Some(d) => {
                if !json_text_well_formed(d.as_str()) {
                    return Err(ErrorCode::Input {
                        message: "Error deserializing raw value as JSON".to_owned(),
                    });
                }
            },
            None => {},
        }
        let ghost target_v = target_did@;
        let mut fields: Vec<Field> = Vec::new();
        push_str_field(&mut fields, "dest", target_did);
        proof {
            assert(fields_view(fields@) =~= seq![("dest"@, FieldValV::S(target_v))]);
        }
        push_opt_str_field(&mut fields, "hash", xhash);
        push_opt_raw_field(&mut fields, "raw", raw);
        push_opt_str_field(&mut fields, "enc", enc);
        Ok(make_request(builder.protocol_version.id(), Some(submitter_did), "100", fields))
    }

    /// A credential-definition publication request.
    pub fn build_cred_def_request(&self, submitter_did: String, cred_def: String) -> (r: Result<
        Request,
        ErrorCode,
    >)
        ensures
            !is_valid_did(submitter_did@) ==> (r matches Err(e) && e matches ErrorCode::Input {
                message,
            } && message@ == "Invalid submitter DID"@),
            is_valid_did(submitter_did@) && !json_well_formed(cred_def@) ==> (r matches Err(e)
                && e matches ErrorCode::Input { message } && message@
                == "Error deserializing cred def"@),
            is_valid_did(submitter_did@) && json_well_formed(cred_def@) ==> (r matches Ok(req)
                && req.wf() && fresh_request(
                self.config.protocol_version.spec_id(),
                Some(submitter_did),
                "102"@,
                seq![("data"@, FieldValV::R(cred_def@))],
                req,
            )),
    {
        let builder = get_request_builder(&self.config)?;
        validate_submitter(&submitter_did)?;
        if !json_text_well_formed(cred_def.as_str()) {
            return Err(ErrorCode::Input { message: "Error deserializing cred def".to_owned() });
        }
        let ghost cd = cred_def@;
        let mut fields: Vec<Field> = Vec::new();
        push_raw_field(&mut fields, "data", cred_def);
        proof {
            assert(fields_view(fields@) =~= seq![("data"@, FieldValV::R(cd))]);
        }
        Ok(make_request(builder.protocol_version.id(), Some(submitter_did), "102", fields))
    }

    /// A schema publication request.
    pub fn build_schema_request(&self, submitter_did: String, schema: String) -> (r: Result<
        Request,
        ErrorCode,
    >)
        ensures
            !is_valid_did(submitter_did@) ==> (r matches Err(e) && e matches ErrorCode::Input {
                message,
            } && message@ == "Invalid submitter DID"@),
            is_valid_did(submitter_did@) && !json_well_formed(schema@) ==> (r matches Err(e)
                && e matches ErrorCode::Input { message } && message@
                == "Error deserializing schema"@),
            is_valid_did(submitter_did@) && json_well_formed(schema@) ==> (r matches Ok(req)
                && req.wf() && fresh_request(
                self.config.protocol_version.spec_id(),
                Some(submitter_did),
                "101"@,
                seq![("data"@, FieldValV::R(schema@))],
                req,
            )),
    {
        let builder = get_request_builder(&self.config)?;
        validate_submitter(&submitter_did)?;
        if !json_text_well_formed(schema.as_str()) {
            return Err(ErrorCode::Input { message: "Error deserializing schema".to_owned() });
        }
        let ghost sv = schema@;
        let mut fields: Vec<Field> = Vec::new();
        push_raw_field(&mut fields, "data", schema);
        proof {
            assert(fields_view(fields@) =~= seq![("data"@, FieldValV::R(sv))]);
        }
        Ok(make_request(builder.protocol_version.id(), Some(submitter_did), "101", fields))
    }

    /// A revocation-registry-definition publication request.
    pub fn build_revoc_reg_def_request(&self, submitter_did: String, rev_reg_def: String) -> (r:
        Result<Request, ErrorCode>)
        ensures
            !is_valid_did(submitter_did@) ==> (r matches Err(e) && e matches ErrorCode::Input {
                message,
            } && message@ == "Invalid submitter DID"@),
            is_valid_did(submitter_did@) && !json_well_formed(rev_reg_def@) ==> (r matches Err(e)
                && e matches ErrorCode::Input { message } && message@
                == "Error deserializing revocation registry definition"@),
            is_valid_did(submitter_did@) && json_well_formed(rev_reg_def@) ==> (r matches Ok(req)
                && req.wf() && fresh_request(
                self.config.protocol_version.spec_id(),
                Some(submitter_did),
                "113"@,
                seq![("data"@, FieldValV::R(rev_reg_def@))],
                req,
            )),
    {
        let builder = get_request_builder(&self.config)?;
        validate_submitter(&submitter_did)?;
        if !json_text_well_formed(rev_reg_def.as_str()) {
            return Err(ErrorCode::Input {
                message: "Error deserializing revocation registry definition".to_owned(),
            });
        }
        let ghost dv = rev_reg_def@;
        let mut fields: Vec<Field> = Vec::new();
        push_raw_field(&mut fields, "data", rev_reg_def);
        proof {
            assert(fields_view(fields@) =~= seq![("data"@, FieldValV::R(dv))]);
        }
        Ok(make_request(builder.protocol_version.id(), Some(submitter_did), "113", fields))
    }

    /// A revocation-registry-entry publication request.
    pub fn build_revoc_reg_entry_request(
        &self,
        submitter_did: String,
        rev_reg_def_id: String,
        entry: String,
    ) -> (r: Result<Request, ErrorCode>)
        ensures
            !is_valid_did(submitter_did@) ==> (r matches Err(e) && e matches ErrorCode::Input {
                message,
            } && message@ == "Invalid submitter DID"@),
            is_valid_did(submitter_did@) && !is_valid_object_id(rev_reg_def_id@) ==> (r matches Err(
                e,
            ) && e matches ErrorCode::Input { message } && message@
                == "Invalid revocation registry id"@),
            is_valid_did(submitter_did@) && is_valid_object_id(rev_reg_def_id@)
                && !json_well_formed(entry@) ==> (r matches Err(e) && e matches ErrorCode::Input {
                message,
            } && message@ == "Error deserializing revocation registry entry value"@),
            is_valid_did(submitter_did@) && is_valid_object_id(rev_reg_def_id@) && json_well_formed(
                entry@,
            ) ==> (r matches Ok(req) && req.wf() && fresh_request(
                self.config.protocol_version.spec_id(),
                Some(submitter_did),
                "114"@,
                seq![
                    ("revocRegDefId"@, FieldValV::S(rev_reg_def_id@)),
                    ("revocDefType"@, FieldValV::S("CL_ACCUM"@)),
                    ("value"@, FieldValV::R(entry@)),
                ],
                req,
            )),
    {
        let builder = get_request_builder(&self.config)?;
        validate_submitter(&submitter_did)?;
        if !validate_object_id(rev_reg_def_id.as_str()) {
            return Err(ErrorCode::Input { message: "Invalid revocation registry id".to_owned() });
        }
        if !json_text_well_formed(entry.as_str()) {
            return Err(ErrorCode::Input {
                message: "Error deserializing revocation registry entry value".to_owned(),
            });
        }
        let ghost idv = rev_reg_def_id@;
        let ghost ev = entry@;
        let mut fields: Vec<Field> = Vec::new();
        push_str_field(&mut fields, "revocRegDefId", rev_reg_def_id);
        push_str_field(&mut fields, "revocDefType", "CL_ACCUM".to_owned());
        push_raw_field(&mut fields, "value", entry);
        proof {
            assert(fields_view(fields@) =~= seq![
                ("revocRegDefId"@, FieldValV::S(idv)),
                ("revocDefType"@, FieldValV::S("CL_ACCUM"@)),
                ("value"@, FieldValV::R(ev)),
            ]);
        }
        Ok(make_request(builder.protocol_version.id(), Some(submitter_did), "114", fields))
    }

    /// A node-topology update request.
    pub fn build_node_request(
        &self,
        submitter_did: String,
        target_did: String,
        data: String,
    ) -> (r: Result<Request, ErrorCode>)
        ensures
            !is_valid_did(submitter_did@) ==> (r matches Err(e) && e matches ErrorCode::Input {
                message,
            } && message@ == "Invalid submitter DID"@),
            is_valid_did(submitter_did@) && !is_valid_did(target_did@) ==> (r matches Err(e)
                && e matches ErrorCode::Input { message } && message@ == "Invalid target DID"@),
            is_valid_did(submitter_did@) && is_valid_did(target_did@) && !json_well_formed(data@)
                ==> (r matches Err(e) && e matches ErrorCode::Input { message } && message@
                == "Error deserializing node data"@),
            is_valid_did(submitter_did@) && is_valid_did(target_did@) && json_well_formed(data@)
                ==> (r matches Ok(req) && req.wf() && fresh_request(
                self.config.protocol_version.spec_id(),
                Some(submitter_did),
                "0"@,
                seq![("dest"@, FieldValV::S(target_did@)), ("data"@, FieldValV::R(data@))],
                req,
            )),
    {
        let builder = get_request_builder(&self.config)?;
        validate_submitter(&submitter_did)?;
        if !validate_did(target_did.as_str()) {
            return Err(ErrorCode::Input { message: "Invalid target DID".to_owned() });
        }
        if !json_text_well_formed(data.as_str()) {
            return Err(ErrorCode::Input { message: "Error deserializing node data".to_owned() });
        }
        let ghost tv = target_did@;
        let ghost dv = data@;
        let mut fields: Vec<Field> = Vec::new();
        push_str_field(&mut fields, "dest", target_did);
        push_raw_field(&mut fields, "data", data);
        proof {
            assert(fields_view(fields@) =~= seq![
                ("dest"@, FieldValV::S(tv)),
                ("data"@, FieldValV::R(dv)),
            ]);
        }
        Ok(make_request(builder.protocol_version.id(), Some(submitter_did), "0", fields))
    }

    /// A pool-configuration update request.
    pub fn build_pool_config_request(&self, submitter_did: String, writes: bool, force: bool) -> (r:
        Result<Request, ErrorCode>)
        ensures
            !is_valid_did(submitter_did@) ==> (r matches Err(e) && e matches ErrorCode::Input {
                message,
            } && message@ == "Invalid submitter DID"@),
            is_valid_did(submitter_did@) ==> (r matches Ok(req) && req.wf() && fresh_request(
                self.config.protocol_version.spec_id(),
                Some(submitter_did),
                "111"@,
                seq![("writes"@, FieldValV::B(writes)), ("force"@, FieldValV::B(force))],
                req,
            )),
    {
        let builder = get_request_builder(&self.config)?;
        validate_submitter(&submitter_did)?;
        let mut fields: Vec<Field> = Vec::new();
        push_bool_field(&mut fields, "writes", writes);
        push_bool_field(&mut fields, "force", force);
        proof {
            assert(fields_view(fields@) =~= seq![
                ("writes"@, FieldValV::B(writes)),
                ("force"@, FieldValV::B(force)),
            ]);
        }
        Ok(make_request(builder.protocol_version.id(), Some(submitter_did), "111", fields))
    }

    /// A validator-status query addressed to the network operators.
    pub fn build_get_validator_info_request(&self, submitter_did: String) -> (r: Result<
        Request,
        ErrorCode,
    >)
        ensures
            !is_valid_did(submitter_did@) ==> (r matches Err(e) && e matches ErrorCode::Input {
                message,
            } && message@ == "Invalid submitter DID"@),
            is_valid_did(submitter_did@) ==> (r matches Ok(req) && req.wf() && fresh_request(
                self.config.protocol_version.spec_id(),
                Some(submitter_did),
                "119"@,
                Seq::empty(),
                req,
            )),
    {
        let builder = get_request_builder(&self.config)?;
        validate_submitter(&submitter_did)?;
        let fields: Vec<Field> = Vec::new();
        proof {
            assert(fields_view(fields@) =~= Seq::<(Seq<char>, FieldValV)>::empty());
        }
        Ok(make_request(builder.protocol_version.id(), Some(submitter_did), "119", fields))
    }

    /// A request disabling all transaction author agreements.
    pub fn build_disable_all_txn_author_agreements_request(&self, submitter_did: String) -> (r:
        Result<Request, ErrorCode>)
        ensures
            !is_valid_did(submitter_did@) ==> (r matches Err(e) && e matches ErrorCode::Input {
                message,
            } && message@ == "Invalid submitter DID"@),
            is_valid_did(submitter_did@) ==> (r matches Ok(req) && req.wf() && fresh_request(
                self.config.protocol_version.spec_id(),
                Some(submitter_did),
                "8"@,
                Seq::empty(),
                req,
            )),
    {
        let builder = get_request_builder(&self.config)?;
        validate_submitter(&submitter_did)?;
        let fields: Vec<Field> = Vec::new();
        proof {
            assert(fields_view(fields@) =~= Seq::<(Seq<char>, FieldValV)>::empty());
        }
        Ok(make_request(builder.protocol_version.id(), Some(submitter_did), "8", fields))
    }

    /// An acceptance-mechanisms publication request.
    pub fn build_acceptance_mechanisms_request(
        &self,
        submitter_did: String,
        aml: String,
        version: String,
        aml_context: Option<String>,
    ) -> (r: Result<Request, ErrorCode>)
        ensures
            !is_valid_did(submitter_did@) ==> (r matches Err(e) && e matches ErrorCode::Input {
                message,
            } && message@ == "Invalid identifier DID"@),
            is_valid_did(submitter_did@) && !json_well_formed(aml@) ==> (r matches Err(e)
                && e matches ErrorCode::Input { message } && message@
                == "Error deserializing AcceptanceMechanisms"@),
            is_valid_did(submitter_did@) && json_well_formed(aml@) ==> (r matches Ok(req)
                && req.wf() && fresh_request(
                self.config.protocol_version.spec_id(),
                Some(submitter_did),
                "5"@,
                seq![("aml"@, FieldValV::R(aml@)), ("version"@, FieldValV::S(version@))]
                    + opt_str_field("amlContext"@, aml_context),
                req,
            )),
    {
        let builder = get_request_builder(&self.config)?;
        if !validate_did(submitter_did.as_str()) {
            return Err(ErrorCode::Input { message: "Invalid identifier DID".to_owned() });
        }
        if !json_text_well_formed(aml.as_str()) {
            return Err(ErrorCode::Input {
                message: "Error deserializing AcceptanceMechanisms".to_owned(),
            });
        }
        let ghost av = aml@;
        let ghost vv = version@;
        let mut fields: Vec<Field> = Vec::new();
        push_raw_field(&mut fields, "aml", aml);
        push_str_field(&mut fields, "version", version);
        proof {
            assert(fields_view(fields@) =~= seq![
                ("aml"@, FieldValV::R(av)),
                ("version"@, FieldValV::S(vv)),
            ]);
        }
        push_opt_str_field(&mut fields, "amlContext", aml_context);
        Ok(make_request(builder.protocol_version.id(), Some(submitter_did), "5", fields))
    }

    /// A transaction-author-agreement publication request.
    pub fn build_txn_author_agreement_request(
        &self,
        submitter_did: String,
        text: Option<String>,
        version: String,
        ratification_ts: Option<u64>,
        retirement_ts: Option<u64>,
    ) -> (r: Result<Request, ErrorCode>)
        ensures
            !is_valid_did(submitter_did@) ==> (r matches Err(e) && e matches ErrorCode::Input {
                message,
            } && message@ == "Invalid submitter DID"@),
            is_valid_did(submitter_did@) ==> (r matches Ok(req) && req.wf() && fresh_request(
                self.config.protocol_version.spec_id(),
                Some(submitter_did),
                "4"@,
                opt_str_field("text"@, text) + seq![("version"@, FieldValV::S(version@))]
                    + opt_u64_field("ratificationTimestamp"@, ratification_ts) + opt_u64_field(
                    "retirementTimestamp"@,
                    retirement_ts,
                ),
                req,
            )),
    {
        let builder = get_request_builder(&self.config)?;
        validate_submitter(&submitter_did)?;
        let ghost vv = version@;
        let mut fields: Vec<Field> = Vec::new();
        push_opt_str_field(&mut fields, "text", text);
        push_str_field(&mut fields, "version", version);
        proof {
            assert(fields_view(fields@) =~= opt_str_field("text"@, text) + seq![
                ("version"@, FieldValV::S(vv)),
            ]);
        }
        push_opt_u64_field(&mut fields, "ratificationTimestamp", ratification_ts);
        push_opt_u64_field(&mut fields, "retirementTimestamp", retirement_ts);
        Ok(make_request(builder.protocol_version.id(), Some(submitter_did), "4", fields))
    }

    /// A raw custom-body submission: the body is taken as given after a
    /// well-formedness check.
    pub fn build_custom_request(&self, body: String) -> (r: Result<Request, ErrorCode>)
        ensures
            !json_well_formed(body@) ==> (r matches Err(e) && e matches ErrorCode::Input {
                message,
            } && message@ == "Error deserializing custom request JSON"@),
            json_well_formed(body@) ==> (r matches Ok(req) && req.wf() && (
            req.req matches Some(p) && p.body == (RequestBody::Custom { text: body }) && p.method
                == RequestMethod::Default && p.signature is None && p.multi_signatures@.len() == 0
                && p.endorser is None && p.taa_acceptance is None)),
    {
        if !json_text_well_formed(body.as_str()) {
            return Err(ErrorCode::Input {
                message: "Error deserializing custom request JSON".to_owned(),
            });
        }
        Ok(
            Request::new(
                PreparedRequest {
                    body: RequestBody::Custom { text: body },
                    method: RequestMethod::Default,
                    signature: None,
                    multi_signatures: Vec::new(),
                    endorser: None,
                    taa_acceptance: None,
                },
            ),
        )
    }

    /// An identity read request.
    pub fn build_get_nym_request(
        &self,
        submitter_did: Option<String>,
        target_did: String,
        seq_no: Option<i32>,
        timestamp: Option<u64>,
    ) -> (r: Result<Request, ErrorCode>)
        ensures
            !opt_did_ok(submitter_did) ==> (r matches Err(e) && e matches ErrorCode::Input {
                message,
            } && message@ == "Invalid submitter DID"@),
            opt_did_ok(submitter_did) && !is_valid_did(target_did@) ==> (r matches Err(e)
                && e matches ErrorCode::Input { message } && message@ == "Invalid target DID"@),
            opt_did_ok(submitter_did) && is_valid_did(target_did@) ==> (r matches Ok(req)
                && req.wf() && fresh_request(
                self.config.protocol_version.spec_id(),
                submitter_did,
                "105"@,
                seq![("dest"@, FieldValV::S(target_did@))] + opt_i32_field("seqNo"@, seq_no)
                    + opt_u64_field("timestamp"@, timestamp),
                req,
            )),
    {
        let builder = get_request_builder(&self.config)?;
        validate_opt_submitter(&submitter_did)?;
        if !validate_did(target_did.as_str()) {
            return Err(ErrorCode::Input { message: "Invalid target DID".to_owned() });
        }
        let ghost tv = target_did@;
        let mut fields: Vec<Field> = Vec::new();
        push_str_field(&mut fields, "dest", target_did);
        proof {
            assert(fields_view(fields@) =~= seq![("dest"@, FieldValV::S(tv))]);
        }
        push_opt_i32_field(&mut fields, "seqNo", seq_no);
        push_opt_u64_field(&mut fields, "timestamp", timestamp);
        Ok(make_request(builder.protocol_version.id(), submitter_did, "105", fields))
    }

    /// An attribute read request.
    pub fn build_get_attrib_request(
        &self,
        submitter_did: Option<String>,
        target_did: String,
        raw: Option<String>,
        xhash: Option<String>,
        enc: Option<String>,
        seq_no: Option<i32>,
        timestamp: Option<u64>,
    ) -> (r: Result<Request, ErrorCode>)
        ensures
            !opt_did_ok(submitter_did) ==> (r matches Err(e) && e matches ErrorCode::Input {
                message,
            } && message@ == "Invalid submitter DID"@),
            opt_did_ok(submitter_did) && !is_valid_did(target_did@) ==> (r matches Err(e)
                && e matches ErrorCode::Input { message } && message@ == "Invalid target DID"@),
            opt_did_ok(submitter_did) && is_valid_did(target_did@) ==> (r matches Ok(req)
                && req.wf() && fresh_request(
                self.config.protocol_version.spec_id(),
                submitter_did,
                "104"@,
                seq![("dest"@, FieldValV::S(target_did@))] + opt_str_field("raw"@, raw)
                    + opt_str_field("hash"@, xhash) + opt_str_field("enc"@, enc) + opt_i32_field(
                    "seqNo"@,
                    seq_no,
                ) + opt_u64_field("timestamp"@, timestamp),
                req,
            )),
    {
        let builder = get_request_builder(&self.config)?;
        validate_opt_submitter(&submitter_did)?;
        if !validate_did(target_did.as_str()) {
            return Err(ErrorCode::Input { message: "Invalid target DID".to_owned() });
        }
        let ghost tv = target_did@;
        let mut fields: Vec<Field> = Vec::new();
        push_str_field(&mut fields, "dest", target_did);
        proof {
            assert(fields_view(fields@) =~= seq![("dest"@, FieldValV::S(tv))]);
        }
        push_opt_str_field(&mut fields, "raw", raw);
        push_opt_str_field(&mut fields, "hash", xhash);
        push_opt_str_field(&mut fields, "enc", enc);
        push_opt_i32_field(&mut fields, "seqNo", seq_no);
        push_opt_u64_field(&mut fields, "timestamp", timestamp);
        Ok(make_request(builder.protocol_version.id(), submitter_did, "104", fields))
    }

    /// A credential-definition read request.
    pub fn build_get_cred_def_request(
        &self,
        submitter_did: Option<String>,
        cred_def_id: String,
    ) -> (r: Result<Request, ErrorCode>)
        ensures
            !opt_did_ok(submitter_did) ==> (r matches Err(e) && e matches ErrorCode::Input {
                message,
            } && message@ == "Invalid submitter DID"@),
            opt_did_ok(submitter_did) && !is_valid_object_id(cred_def_id@) ==> (r matches Err(e)
                && e matches ErrorCode::Input { message } && message@
                == "Invalid credential definition id"@),
            opt_did_ok(submitter_did) && is_valid_object_id(cred_def_id@) ==> (r matches Ok(req)
                && req.wf() && fresh_request(
                self.config.protocol_version.spec_id(),
                submitter_did,
                "108"@,
                seq![("id"@, FieldValV::S(cred_def_id@))],
                req,
            )),
    {
        let builder = get_request_builder(&self.config)?;
        validate_opt_submitter(&submitter_did)?;
        if !validate_object_id(cred_def_id.as_str()) {
            return Err(ErrorCode::Input { message: "Invalid credential definition id".to_owned() });
        }
        let ghost iv = cred_def_id@;
        let mut fields: Vec<Field> = Vec::new();
        push_str_field(&mut fields, "id", cred_def_id);
        proof {
            assert(fields_view(fields@) =~= seq![("id"@, FieldValV::S(iv))]);
        }
        Ok(make_request(builder.protocol_version.id(), submitter_did, "108", fields))
    }

    /// A schema read request.
    pub fn build_get_schema_request(&self, submitter_did: Option<String>, schema_id: String) -> (r:
        Result<Request, ErrorCode>)
        ensures
            !opt_did_ok(submitter_did) ==> (r matches Err(e) && e matches ErrorCode::Input {
                message,
            } && message@ == "Invalid submitter DID"@),
            opt_did_ok(submitter_did) && !is_valid_object_id(schema_id@) ==> (r matches Err(e)
                && e matches ErrorCode::Input { message } && message@ == "Invalid schema id"@),
            opt_did_ok(submitter_did) && is_valid_object_id(schema_id@) ==> (r matches Ok(req)
                && req.wf() && fresh_request(
                self.config.protocol_version.spec_id(),
                submitter_did,
                "107"@,
                seq![("id"@, FieldValV::S(schema_id@))],
                req,
            )),
    {
        let builder = get_request_builder(&self.config)?;
        validate_opt_submitter(&submitter_did)?;
        if !validate_object_id(schema_id.as_str()) {
            return Err(ErrorCode::Input { message: "Invalid schema id".to_owned() });
        }
        let ghost iv = schema_id@;
        let mut fields: Vec<Field> = Vec::new();
        push_str_field(&mut fields, "id", schema_id);
        proof {
            assert(fields_view(fields@) =~= seq![("id"@, FieldValV::S(iv))]);
        }
        Ok(make_request(builder.protocol_version.id(), submitter_did, "107", fields))
    }

    /// A revocation-registry-definition read request.
    pub fn build_get_revoc_reg_def_request(
        &self,
        submitter_did: Option<String>,
        rev_reg_id: String,
    ) -> (r: Result<Request, ErrorCode>)
        ensures
            !opt_did_ok(submitter_did) ==> (r matches Err(e) && e matches ErrorCode::Input {
                message,
            } && message@ == "Invalid submitter DID"@),
            opt_did_ok(submitter_did) && !is_valid_object_id(rev_reg_id@) ==> (r matches Err(e)
                && e matches ErrorCode::Input { message } && message@
                == "Invalid revocation registry id"@),
            opt_did_ok(submitter_did) && is_valid_object_id(rev_reg_id@) ==> (r matches Ok(req)
                && req.wf() && fresh_request(
                self.config.protocol_version.spec_id(),
                submitter_did,
                "115"@,
                seq![("id"@, FieldValV::S(rev_reg_id@))],
                req,
            )),
    {
        let builder = get_request_builder(&self.config)?;
        validate_opt_submitter(&submitter_did)?;
        if !validate_object_id(rev_reg_id.as_str()) {
            return Err(ErrorCode::Input { message: "Invalid revocation registry id".to_owned() });
        }
        let ghost iv = rev_reg_id@;
        let mut fields: Vec<Field> = Vec::new();
        push_str_field(&mut fields, "id", rev_reg_id);
        proof {
            assert(fields_view(fields@) =~= seq![("id"@, FieldValV::S(iv))]);
        }
        Ok(make_request(builder.protocol_version.id(), submitter_did, "115", fields))
    }

    /// A revocation-registry state read request at one point in time.
    pub fn build_get_revoc_reg_request(
        &self,
        submitter_did: Option<String>,
        rev_reg_id: String,
        timestamp: i64,
    ) -> (r: Result<Request, ErrorCode>)
        ensures
            !opt_did_ok(submitter_did) ==> (r matches Err(e) && e matches ErrorCode::Input {
                message,
            } && message@ == "Invalid submitter DID"@),
            opt_did_ok(submitter_did) && !is_valid_object_id(rev_reg_id@) ==> (r matches Err(e)
                && e matches ErrorCode::Input { message } && message@
                == "Invalid revocation registry id"@),
            opt_did_ok(submitter_did) && is_valid_object_id(rev_reg_id@) ==> (r matches Ok(req)
                && req.wf() && fresh_request(
                self.config.protocol_version.spec_id(),
                submitter_did,
                "116"@,
                seq![
                    ("revocRegDefId"@, FieldValV::S(rev_reg_id@)),
                    ("timestamp"@, FieldValV::I(timestamp)),
                ],
                req,
            )),
    {
        let builder = get_request_builder(&self.config)?;
        validate_opt_submitter(&submitter_did)?;
        if !validate_object_id(rev_reg_id.as_str()) {
            return Err(ErrorCode::Input { message: "Invalid revocation registry id".to_owned() });
        }
        let ghost iv = rev_reg_id@;
        let mut fields: Vec<Field> = Vec::new();
        push_str_field(&mut fields, "revocRegDefId", rev_reg_id);
        push_i64_field(&mut fields, "timestamp", timestamp);
        proof {
            assert(fields_view(fields@) =~= seq![
                ("revocRegDefId"@, FieldValV::S(iv)),
                ("timestamp"@, FieldValV::I(timestamp)),
            ]);
        }
        Ok(make_request(builder.protocol_version.id(), submitter_did, "116", fields))
    }

    /// A revocation-registry delta read request over a time interval.
    pub fn build_get_revoc_reg_delta_request(
        &self,
        submitter_did: Option<String>,
        rev_reg_id: String,
        from: Option<i64>,
        to: i64,
    ) -> (r: Result<Request, ErrorCode>)
        ensures
            !opt_did_ok(submitter_did) ==> (r matches Err(e) && e matches ErrorCode::Input {
                message,
            } && message@ == "Invalid submitter DID"@),
            opt_did_ok(submitter_did) && !is_valid_object_id(rev_reg_id@) ==> (r matches Err(e)
                && e matches ErrorCode::Input { message } && message@
                == "Invalid revocation registry id"@),
            opt_did_ok(submitter_did) && is_valid_object_id(rev_reg_id@) ==> (r matches Ok(req)
                && req.wf() && fresh_request(
                self.config.protocol_version.spec_id(),
                submitter_did,
                "117"@,
                seq![("revocRegDefId"@, FieldValV::S(rev_reg_id@))] + opt_i64_field("from"@, from)
                    + seq![("to"@, FieldValV::I(to))],
                req,
            )),
    {
        let builder = get_request_builder(&self.config)?;
        validate_opt_submitter(&submitter_did)?;
        if !validate_object_id(rev_reg_id.as_str()) {
            return Err(ErrorCode::Input { message: "Invalid revocation registry id".to_owned() });
        }
        let ghost iv = rev_reg_id@;
        let mut fields: Vec<Field> = Vec::new();
        push_str_field(&mut fields, "revocRegDefId", rev_reg_id);
        proof {
            assert(fields_view(fields@) =~= seq![("revocRegDefId"@, FieldValV::S(iv))]);
        }
        push_opt_i64_field(&mut fields, "from", from);
        push_i64_field(&mut fields, "to", to);
        proof {
            assert(fields_view(fields@) =~= seq![("revocRegDefId"@, FieldValV::S(iv))]
                + opt_i64_field("from"@, from) + seq![("to"@, FieldValV::I(to))]);
        }
        Ok(make_request(builder.protocol_version.id(), submitter_did, "117", fields))
    }

    /// A transaction read request from one ledger.
    pub fn build_get_txn_request(
        &self,
        submitter_did: Option<String>,
        ledger_type: LedgerType,
        seq_no: i32,
    ) -> (r: Result<Request, ErrorCode>)
        ensures
            !opt_did_ok(submitter_did) ==> (r matches Err(e) && e matches ErrorCode::Input {
                message,
            } && message@ == "Invalid submitter DID"@),
            opt_did_ok(submitter_did) ==> (r matches Ok(req) && req.wf() && fresh_request(
                self.config.protocol_version.spec_id(),
                submitter_did,
                "3"@,
                seq![
                    ("ledgerId"@, FieldValV::U(ledger_type.spec_id())),
                    ("data"@, FieldValV::I(seq_no as i64)),
                ],
                req,
            )),
    {
        let builder = get_request_builder(&self.config)?;
        validate_opt_submitter(&submitter_did)?;
        let mut fields: Vec<Field> = Vec::new();
        push_u64_field(&mut fields, "ledgerId", ledger_type.id());
        push_i64_field(&mut fields, "data", seq_no as i64);
        proof {
            assert(fields_view(fields@) =~= seq![
                ("ledgerId"@, FieldValV::U(ledger_type.spec_id())),
                ("data"@, FieldValV::I(seq_no as i64)),
            ]);
        }
        Ok(make_request(builder.protocol_version.id(), submitter_did, "3", fields))
    }

    /// An acceptance-mechanisms read request.
    pub fn build_get_acceptance_mechanisms_request(
        &self,
        submitter_did: Option<String>,
        timestamp: Option<u64>,
        version: Option<String>,
    ) -> (r: Result<Request, ErrorCode>)
        ensures
            !opt_did_ok(submitter_did) ==> (r matches Err(e) && e matches ErrorCode::Input {
                message,
            } && message@ == "Invalid submitter DID"@),
            opt_did_ok(submitter_did) ==> (r matches Ok(req) && req.wf() && fresh_request(
                self.config.protocol_version.spec_id(),
                submitter_did,
                "7"@,
                opt_u64_field("timestamp"@, timestamp) + opt_str_field("version"@, version),
                req,
            )),
    {
        let builder = get_request_builder(&self.config)?;
        validate_opt_submitter(&submitter_did)?;
        let mut fields: Vec<Field> = Vec::new();
        push_opt_u64_field(&mut fields, "timestamp", timestamp);
        push_opt_str_field(&mut fields, "version", version);
        Ok(make_request(builder.protocol_version.id(), submitter_did, "7", fields))
    }

    /// A transaction-author-agreement read request.
    pub fn build_get_txn_author_agreement_request(
        &self,
        submitter_did: Option<String>,
        data: Option<String>,
    ) -> (r: Result<Request, ErrorCode>)
        ensures
            !opt_did_ok(submitter_did) ==> (r matches Err(e) && e matches ErrorCode::Input {
                message,
            } && message@ == "Invalid submitter DID"@),
            opt_did_ok(submitter_did) && (data matches Some(d) && !json_well_formed(d@)) ==> (
            r matches Err(e) && e matches ErrorCode::Input { message } && message@
                == "Error deserializing TAA data as JSON"@),
            opt_did_ok(submitter_did) && (data matches Some(d) ==> json_well_formed(d@)) ==> (
            r matches Ok(req) && req.wf() && fresh_request(
                self.config.protocol_version.spec_id(),
                submitter_did,
                "6"@,
                opt_raw_field("data"@, data),
                req,
            )),
    {
        let builder = get_request_builder(&self.config)?;
        validate_opt_submitter(&submitter_did)?;
        match &data {
            Some(d) => {
                if !json_text_well_formed(d.as_str()) {
                    return Err(ErrorCode::Input {
                        message: "Error deserializing TAA data as JSON".to_owned(),
                    });
                }
            },
            None => {},
        }
        let mut fields: Vec<Field> = Vec::new();
        push_opt_raw_field(&mut fields, "data", data);
        Ok(make_request(builder.protocol_version.id(), submitter_did, "6", fields))
    }

    /// The serialized acceptance record a caller attaches to a request after
    /// accepting the transaction author agreement.  The agreement digest is
    /// taken as given, or computed from the agreement version and text; the
    /// acceptance time is rounded down to the start of its day.
    pub fn prepare_txn_author_agreement_acceptance(
        &self,
        text: Option<String>,
        version: Option<String>,
        taa_digest: Option<String>,
        mechanism: String,
        time: u64,
    ) -> (r: Result<String, ErrorCode>)
        ensures
            (text is Some && version is None) || (text is None && version is Some) || (text is None
                && version is None && taa_digest is None) ==> (r matches Err(e)
                && e matches ErrorCode::Input { message } && message@
                == "Either taa_digest or both text and version must be specified"@),
            taa_digest matches Some(d) ==> (text is None && version is None ==> (r matches Ok(s)
                && s@ == taa_acceptance_text(mechanism@, d@, rounded_time(time)))),
            text matches Some(t) ==> (version matches Some(v) ==> (taa_digest is None ==> (
            r matches Ok(s) && s@ == taa_acceptance_text(
                mechanism@,
                taa_digest_text(t@, v@),
                rounded_time(time),
            )))),
            text matches Some(t) ==> (version matches Some(v) ==> (taa_digest matches Some(d)
                ==> (d@ == taa_digest_text(t@, v@) ==> (r matches Ok(s) && s@
                == taa_acceptance_text(mechanism@, d@, rounded_time(time)))))),
            text matches Some(t) ==> (version matches Some(v) ==> (taa_digest matches Some(d)
                ==> (d@ != taa_digest_text(t@, v@) ==> (r matches Err(e)
                && e matches ErrorCode::Input { message } && message@
                == "Calculated digest does not match the provided digest"@)))),
    {
        let digest: String = match (&text, &version) {
            (Some(t), Some(v)) => {
                let combined = v.clone().concat(t.as_str());
                let hash = sha256(combined.as_str().as_bytes());
                let computed = hex_of_bytes(&hash);
                match &taa_digest {
                    Some(d) => {
                        if !computed.eq(d) {
                            return Err(ErrorCode::Input {
                                message:
                                    "Calculated digest does not match the provided digest".to_owned(
                                ),
                            });
                        }
                        computed
                    },
                    None => computed,
                }
            },
            (None, None) => {
                match taa_digest {
                    Some(d) => d,
                    None => {
                        return Err(ErrorCode::Input {
                            message:
                                "Either taa_digest or both text and version must be specified".to_owned(
                            ),
                        });
                    },
                }
            },
            _ => {
                return Err(ErrorCode::Input {
                    message: "Either taa_digest or both text and version must be specified".to_owned(
                    ),
                });
            },
        };
        let remainder = time % 86400;
        proof {
            assert(time % 86400 <= time) by (nonlinear_arith);
        }
        let rounded = time - remainder;
        let mut out = String::new();
        out.append("{\"mechanism\":\"");
        escape_into(&mut out, mechanism.as_str());
        out.append("\",\"taaDigest\":\"");
        escape_into(&mut out, digest.as_str());
        out.append("\",\"time\":");
        append_u64(&mut out, rounded);
        out.append("}");
        proof {
            assert(out@ =~= taa_acceptance_text(mechanism@, digest@, rounded_time(time)));
        }
        Ok(out)
    }
}

} // verus!
