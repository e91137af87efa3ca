//! The prepared request: a single-use, mutable envelope around one
//! constructed request body.  Decoration (endorser, signatures, transaction
//! author agreement acceptance) is only legal before consumption; once the
//! request is taken for transmission every further operation fails with the
//! already-used condition.

use vstd::prelude::*;
use crate::error::{ErrorCode, is_already_used_err, already_used_err};
use crate::ids::{is_valid_did, validate_did};
use crate::text::{escape_text, escape_into, dec_text, int_text, append_u64, append_i64};
use crate::trusted::{json_well_formed, json_text_well_formed};

verus! {

/// How a request is transmitted: through the default consensus path, or as a
/// targeted action broadcast to a node subset with an optional deadline.
#[derive(Debug, Clone, PartialEq, Eq)]
pub enum RequestMethod {
    Default,
    Full { node_aliases: Option<Vec<String>>, timeout: Option<i64> },
}

/// The value of one operation field of a request body.
#[derive(Debug, Clone, PartialEq, Eq)]
pub enum FieldVal {
    Str(String),
    U64(u64),
    I64(i64),
    Bool(bool),
    /// A caller-supplied JSON document, validated and embedded verbatim.
    Raw(String),
    Null,
}

/// The mathematical value of a field value.
pub enum FieldValV {
    S(Seq<char>),
    U(u64),
    I(i64),
    B(bool),
    R(Seq<char>),
    N,
}

impl View for FieldVal {
    type V = FieldValV;

    open spec fn view(&self) -> FieldValV {
        match self {
            FieldVal::Str(s) => FieldValV::S(s@),
            FieldVal::U64(n) => FieldValV::U(*n),
            FieldVal::I64(n) => FieldValV::I(*n),
            FieldVal::Bool(b) => FieldValV::B(*b),
            FieldVal::Raw(s) => FieldValV::R(s@),
            FieldVal::Null => FieldValV::N,
        }
    }
}

/// One named operation field of a request body.
#[derive(Debug, Clone, PartialEq, Eq)]
pub struct Field {
    pub name: String,
    pub value: FieldVal,
}

impl View for Field {
    type V = (Seq<char>, FieldValV);

    open spec fn view(&self) -> (Seq<char>, FieldValV) {
        (self.name@, self.value@)
    }
}

/// The mathematical values of an ordered field list.
pub open spec fn fields_view(fs: Seq<Field>) -> Seq<(Seq<char>, FieldValV)> {
    fs.map_values(|f: Field| f@)
}

/// A request body: either one built by the request builder from typed
/// inputs, or a raw caller-supplied JSON document.
#[derive(Debug, Clone, PartialEq, Eq)]
pub enum RequestBody {
    Built {
        protocol_version: u64,
        identifier: Option<String>,
        txn_type: String,
        fields: Vec<Field>,
    },
    Custom { text: String },
}

/// The JSON text of one field value.
pub open spec fn json_of_val(v: FieldValV) -> Seq<char> {
    match v {
        FieldValV::S(s) => "\""@ + escape_text(s) + "\""@,
        FieldValV::U(n) => dec_text(n as nat),
        FieldValV::I(n) => int_text(n as int),
        FieldValV::B(b) => if b {
            "true"@
        } else {
            "false"@
        },
        FieldValV::R(s) => s,
        FieldValV::N => "null"@,
    }
}

/// The JSON text of one named field, with its leading comma.
pub open spec fn field_text(name: Seq<char>, v: FieldValV) -> Seq<char> {
    ",\""@ + escape_text(name) + "\":"@ + json_of_val(v)
}

/// The JSON text of an ordered field list.
pub open spec fn fields_text(fs: Seq<(Seq<char>, FieldValV)>) -> Seq<char>
    decreases fs.len(),
{
    if fs.len() == 0 {
        Seq::empty()
    } else {
        fields_text(fs.drop_last()) + field_text(fs.last().0, fs.last().1)
    }
}

/// A prepared request: the body, the submission method, and the decorations
/// attached before transmission.
#[derive(Debug, Clone, PartialEq, Eq)]
pub struct PreparedRequest {
    pub body: RequestBody,
    pub method: RequestMethod,
    pub signature: Option<Vec<u8>>,
    pub multi_signatures: Vec<MultiSignature>,
    pub endorser: Option<String>,
    pub taa_acceptance: Option<String>,
}

/// One multi-signature entry: the signer and its signature bytes.
#[derive(Debug, Clone, PartialEq, Eq)]
pub struct MultiSignature {
    pub identifier: String,
    pub signature: Vec<u8>,
}

/// The serialized text of a prepared request, the document that is signed
/// and transmitted: the identifier, the operation with its declared type and
/// fields, the protocol version, and the attached decorations.
pub open spec fn request_text(req: PreparedRequest) -> Seq<char> {
    match req.body {
        RequestBody::Custom { text } => text@,
        RequestBody::Built { protocol_version, identifier, txn_type, fields } => "{"@ + (
        match identifier {
            Some(id) => "\"identifier\":\""@ + escape_text(id@) + "\","@,
            None => Seq::empty(),
        }) + "\"operation\":{\"type\":\""@ + escape_text(txn_type@) + "\""@ + fields_text(
            fields_view(fields@),
        ) + "},\"protocolVersion\":"@ + dec_text(protocol_version as nat) + (
        match req.endorser {
            Some(e) => ",\"endorser\":\""@ + escape_text(e@) + "\""@,
            None => Seq::empty(),
        }) + (match req.taa_acceptance {
            Some(t) => ",\"taaAcceptance\":"@ + t@,
            None => Seq::empty(),
        }) + "}"@,
    }
}

/// Every raw field of a field list embeds a well-formed JSON document.
pub open spec fn raw_fields_wf(fs: Seq<Field>) -> bool {
    forall|i: int|
        0 <= i < fs.len() ==> (#[trigger] fs[i].value matches FieldVal::Raw(t)
            ==> json_well_formed(t@))
}

impl PreparedRequest {
    /// Well-formedness: embedded raw documents and the acceptance record are
    /// well-formed JSON, the endorser and multi-signature identifiers are
    /// valid, and attached signatures are non-empty.
    pub open spec fn wf(&self) -> bool {
        &&& match self.body {
            RequestBody::Built { fields, .. } => raw_fields_wf(fields@),
            RequestBody::Custom { text } => json_well_formed(text@),
        }
        &&& self.endorser matches Some(e) ==> is_valid_did(e@)
        &&& self.taa_acceptance matches Some(t) ==> json_well_formed(t@)
        &&& self.signature matches Some(s) ==> s@.len() > 0
        &&& forall|i: int|
            0 <= i < self.multi_signatures@.len() ==> is_valid_did(
                #[trigger] self.multi_signatures@[i].identifier@,
            ) && self.multi_signatures@[i].signature@.len() > 0
    }
}

/// Serializes a prepared request into its transmitted text.
#[verifier::loop_isolation(false)]
#[verifier::rlimit(100)]
pub fn render_request(req: &PreparedRequest) -> (r: String)
    ensures
        r@ == request_text(*req),
{
    match &req.body {
        RequestBody::Custom { text } => text.clone(),
        RequestBody::Built { protocol_version, identifier, txn_type, fields } => {
            let mut out = String::new();
            out.append("{");
            match identifier {
                Some(id) => {
                    out.append("\"identifier\":\"");
                    escape_into(&mut out, id.as_str());
                    out.append("\",");
                },
                None => {},
            }
            out.append("\"operation\":{\"type\":\"");
            escape_into(&mut out, txn_type.as_str());
            out.append("\"");
            let ghost head = out@;
            let mut i: usize = 0;
            while i < fields.len()
                invariant
                    i <= fields@.len(),
                    out@ == head + fields_text(fields_view(fields@.subrange(0, i as int))),
                decreases fields@.len() - i,
            {
                let ghost pref = fields_view(fields@.subrange(0, i as int));
                let f = &fields[i];
                out.append(",\"");
                escape_into(&mut out, f.name.as_str());
                out.append("\":");
                match &f.value {
                    FieldVal::Str(s) => {
                        out.append("\"");
                        escape_into(&mut out, s.as_str());
                        out.append("\"");
                    },
                    FieldVal::U64(n) => {
                        append_u64(&mut out, *n);
                    },
                    FieldVal::I64(n) => {
                        append_i64(&mut out, *n);
                    },
                    FieldVal::Bool(b) => {
                        if *b {
                            out.append("true");
                        } else {
                            out.append("false");
                        }
                    },
                    FieldVal::Raw(t) => {
                        out.append(t.as_str());
                    },
                    FieldVal::Null => {
                        out.append("null");
                    },
                }
                proof {
                    let ghost fv = fields@[i as int]@;
                    assert(fields_view(fields@.subrange(0, i + 1)) =~= pref.push(fv));
                    assert(pref.push(fv).drop_last() =~= pref);
                    assert(fields_text(pref.push(fv)) == fields_text(pref) + field_text(
                        fv.0,
                        fv.1,
                    ));
                    assert(out@ =~= head + fields_text(fields_view(fields@.subrange(0, i + 1))));
                }
                i += 1;
            }
            proof {
                assert(fields@.subrange(0, fields@.len() as int) =~= fields@);
            }
            out.append("},\"protocolVersion\":");
            append_u64(&mut out, *protocol_version);
            match &req.endorser {
                Some(e) => {
                    out.append(",\"endorser\":\"");
                    escape_into(&mut out, e.as_str());
                    out.append("\"");
                },
                None => {},
            }
            match &req.taa_acceptance {
                Some(t) => {
                    out.append(",\"taaAcceptance\":");
                    out.append(t.as_str());
                },
                None => {},
            }
            out.append("}");
            proof {
                assert(out@ =~= request_text(*req));
            }
            out
        },
    }
}

/// The single-use envelope handed to callers: holds the prepared request
/// until it is consumed for transmission.
#[derive(Debug, Clone, PartialEq, Eq)]
pub struct Request {
    pub req: Option<PreparedRequest>,
}

impl Request {
    /// The request was taken for transmission; no further use is legal.
    pub open spec fn consumed(&self) -> bool {
        self.req is None
    }

    /// The envelope is well-formed while its request is.
    pub open spec fn wf(&self) -> bool {
        self.req matches Some(r) ==> r.wf()
    }

    /// Wraps a freshly built prepared request.
    pub fn new(req: PreparedRequest) -> (r: Request)
        ensures
            r.req == Some(req),
            !r.consumed(),
    {
        Request { req: Some(req) }
    }

    /// The serialized request document.  Fails with the already-used
    /// condition once the request was consumed.
    pub fn body(&self) -> (r: Result<String, ErrorCode>)
        ensures
            self.consumed() ==> (r matches Err(e) && is_already_used_err(e)),
            !self.consumed() ==> (r matches Ok(t) && t@ == request_text(self.req->Some_0)),
    {
        match &self.req {
            Some(req) => Ok(render_request(req)),
            None => Err(already_used_err()),
        }
    }

    /// The input to signing: the serialized request document before any
    /// signature is attached.  Fails with the already-used condition once the
    /// request was consumed.
    pub fn signature_input(&self) -> (r: Result<String, ErrorCode>)
        ensures
            self.consumed() ==> (r matches Err(e) && is_already_used_err(e)),
            !self.consumed() ==> (r matches Ok(t) && t@ == request_text(self.req->Some_0)),
    {
        match &self.req {
            Some(req) => Ok(render_request(req)),
            None => Err(already_used_err()),
        }
    }

    /// Assigns the endorser.  Fails `Input` on a malformed identifier, and
    /// with the already-used condition once the request was consumed; on
    /// failure the envelope is unchanged.
    pub fn set_endorser(&mut self, endorser: String) -> (r: Result<(), ErrorCode>)
        ensures
            !is_valid_did(endorser@) ==> (r matches Err(e) && e matches ErrorCode::Input {
                message,
            } && message@ == "Invalid endorser DID"@) && *final(self) == *old(self),
            is_valid_did(endorser@) && old(self).consumed() ==> (r matches Err(e)
                && is_already_used_err(e)) && *final(self) == *old(self),
            is_valid_did(endorser@) && !old(self).consumed() ==> r is Ok && final(self).req
                == Some(PreparedRequest { endorser: Some(endorser), ..old(self).req->Some_0 }),
    {
        if !validate_did(endorser.as_str()) {
            return Err(ErrorCode::Input { message: "Invalid endorser DID".to_owned() });
        }
        match &mut self.req {
            Some(req) => {
                req.endorser = Some(endorser);
                Ok(())
            },
            None => Err(already_used_err()),
        }
    }

    /// Attaches the signature.  Fails `Input` on empty signature bytes, and
    /// with the already-used condition once the request was consumed; on
    /// failure the envelope is unchanged.
    pub fn set_signature(&mut self, signature: Vec<u8>) -> (r: Result<(), ErrorCode>)
        ensures
            signature@.len() == 0 ==> (r matches Err(e) && e matches ErrorCode::Input { message }
                && message@ == "Signature length must be greater than zero"@) && *final(self)
                == *old(self),
            signature@.len() > 0 && old(self).consumed() ==> (r matches Err(e)
                && is_already_used_err(e)) && *final(self) == *old(self),
            signature@.len() > 0 && !old(self).consumed() ==> r is Ok && final(self).req == Some(
                PreparedRequest { signature: Some(signature), ..old(self).req->Some_0 },
            ),
    {
        if signature.len() == 0 {
            return Err(ErrorCode::Input {
                message: "Signature length must be greater than zero".to_owned(),
            });
        }
        match &mut self.req {
            Some(req) => {
                req.signature = Some(signature);
                Ok(())
            },
            None => Err(already_used_err()),
        }
    }

    /// Appends a multi-signature entry.  Fails `Input` on a malformed signer
    /// identifier or empty signature bytes, and with the already-used
    /// condition once the request was consumed; on failure the envelope is
    /// unchanged.
    pub fn set_multi_signature(&mut self, identifier: String, signature: Vec<u8>) -> (r: Result<
        (),
        ErrorCode,
    >)
        ensures
            !is_valid_did(identifier@) ==> (r matches Err(e) && e matches ErrorCode::Input {
                message,
            } && message@ == "Invalid identifier DID"@) && *final(self) == *old(self),
            is_valid_did(identifier@) && signature@.len() == 0 ==> (r matches Err(e)
                && e matches ErrorCode::Input { message } && message@
                == "Signature length must be greater than zero"@) && *final(self) == *old(self),
            is_valid_did(identifier@) && signature@.len() > 0 && old(self).consumed() ==> (
            r matches Err(e) && is_already_used_err(e)) && *final(self) == *old(self),
            is_valid_did(identifier@) && signature@.len() > 0 && !old(self).consumed() ==> r is Ok
                && (final(self).req matches Some(nr) && nr.multi_signatures@ == old(
                self,
            ).req->Some_0.multi_signatures@.push(MultiSignature { identifier, signature })
                && nr.body == old(self).req->Some_0.body && nr.method == old(self).req->Some_0.method
                && nr.signature == old(self).req->Some_0.signature && nr.endorser == old(
                self,
            ).req->Some_0.endorser && nr.taa_acceptance == old(self).req->Some_0.taa_acceptance),
    {
        if !validate_did(identifier.as_str()) {
            return Err(ErrorCode::Input { message: "Invalid identifier DID".to_owned() });
        }
        if signature.len() == 0 {
            return Err(ErrorCode::Input {
                message: "Signature length must be greater than zero".to_owned(),
            });
        }
        match &mut self.req {
            Some(req) => {
                req.multi_signatures.push(MultiSignature { identifier, signature });
                Ok(())
            },
            None => Err(already_used_err()),
        }
    }

    /// Stamps the transaction-author-agreement acceptance record.  Fails
    /// `Input` on malformed JSON, and with the already-used condition once
    /// the request was consumed; on failure the envelope is unchanged.
    pub fn set_txn_author_agreement_acceptance(&mut self, acceptance: String) -> (r: Result<
        (),
        ErrorCode,
    >)
        ensures
            !json_well_formed(acceptance@) ==> (r matches Err(e) && e matches ErrorCode::Input {
                message,
            } && message@ == "Invalid TAA acceptance format"@) && *final(self) == *old(self),
            json_well_formed(acceptance@) && old(self).consumed() ==> (r matches Err(e)
                && is_already_used_err(e)) && *final(self) == *old(self),
            json_well_formed(acceptance@) && !old(self).consumed() ==> r is Ok && final(self).req
                == Some(
                PreparedRequest { taa_acceptance: Some(acceptance), ..old(self).req->Some_0 },
            ),
    {
        if !json_text_well_formed(acceptance.as_str()) {
            return Err(ErrorCode::Input { message: "Invalid TAA acceptance format".to_owned() });
        }
        match &mut self.req {
            Some(req) => {
                req.taa_acceptance = Some(acceptance);
                Ok(())
            },
            None => Err(already_used_err()),
        }
    }

    /// Stamps the submission method; used by the pool client before a
    /// targeted action.  Fails with the already-used condition once the
    /// request was consumed.
    pub fn set_method(&mut self, method: RequestMethod) -> (r: Result<(), ErrorCode>)
        ensures
            old(self).consumed() ==> (r matches Err(e) && is_already_used_err(e)) && *final(self)
                == *old(self),
            !old(self).consumed() ==> r is Ok && final(self).req == Some(
                PreparedRequest { method, ..old(self).req->Some_0 },
            ),
    {
        match &mut self.req {
            Some(req) => {
                req.method = method;
                Ok(())
            },
            None => Err(already_used_err()),
        }
    }

    /// Seizes the prepared request for transmission: a one-shot, irreversible
    /// transfer of ownership.  Fails with the already-used condition once the
    /// request was consumed.
    pub fn take(&mut self) -> (r: Result<PreparedRequest, ErrorCode>)
        ensures
            old(self).consumed() ==> (r matches Err(e) && is_already_used_err(e)) && *final(self)
                == *old(self),
            !old(self).consumed() ==> (r matches Ok(req) && req == old(self).req->Some_0)
                && final(self).consumed(),
    {
        match self.req.take() {
            Some(req) => Ok(req),
            None => Err(already_used_err()),
        }
    }
}

} // verus!
