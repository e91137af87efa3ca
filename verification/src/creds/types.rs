//! The credential-exchange data model.  Types whose content the coordination
//! layer reads are modelled with plain fields; artifacts produced and
//! consumed only by the credential crypto layer (keys, proofs, signatures,
//! accumulators) are carried as opaque well-formed JSON documents.

use vstd::prelude::*;
use crate::creds::error::ErrorCode;
use crate::text::{escape_text, escape_into, dec_text, append_u64, view_lines};
use crate::trusted::{json_well_formed, json_text_well_formed};

verus! {

/// The identifier of a published schema: `issuer:2:name:version`.
pub open spec fn schema_id_text(issuer: Seq<char>, name: Seq<char>, version: Seq<char>) -> Seq<
    char,
> {
    issuer + ":2:"@ + name + ":"@ + version
}

/// The identifier of a published credential definition:
/// `issuer:3:CL:schema_id:tag`.
pub open spec fn cred_def_id_text(issuer: Seq<char>, schema_id: Seq<char>, tag: Seq<char>) -> Seq<
    char,
> {
    issuer + ":3:CL:"@ + schema_id + ":"@ + tag
}

/// The identifier of a published revocation registry:
/// `issuer:4:cred_def_id:CL_ACCUM:tag`.
pub open spec fn rev_reg_id_text(issuer: Seq<char>, cred_def_id: Seq<char>, tag: Seq<char>) -> Seq<
    char,
> {
    issuer + ":4:"@ + cred_def_id + ":CL_ACCUM:"@ + tag
}

/// A credential schema: the issuer, a name and version, and the attribute
/// names it declares.
#[derive(Debug, Clone, PartialEq, Eq)]
pub struct Schema {
    pub issuer_id: String,
    pub name: String,
    pub version: String,
    pub attr_names: Vec<String>,
}

impl Schema {
    /// Assembles a schema value from its parts.
    pub fn new(issuer_id: String, name: String, version: String, attr_names: Vec<String>) -> (r:
        Schema)
        ensures
            r == (Schema { issuer_id, name, version, attr_names }),
    {
        Schema { issuer_id, name, version, attr_names }
    }

    /// The schema's ledger identifier.
    pub fn schema_id(&self) -> (r: String)
        ensures
            r@ == schema_id_text(self.issuer_id@, self.name@, self.version@),
    {
        let mut out = self.issuer_id.clone();
        out.append(":2:");
        out.append(self.name.as_str());
        out.append(":");
        out.append(self.version.as_str());
        out
    }

    pub fn name(&self) -> (r: String)
        ensures
            r@ == self.name@,
    {
        self.name.clone()
    }

    pub fn version(&self) -> (r: String)
        ensures
            r@ == self.version@,
    {
        self.version.clone()
    }

    pub fn issuer_id(&self) -> (r: String)
        ensures
            r@ == self.issuer_id@,
    {
        self.issuer_id.clone()
    }
}

/// A credential definition: the schema it binds to, the issuer, a tag, and
/// the public key material as an opaque document.
#[derive(Debug, Clone, PartialEq, Eq)]
pub struct CredentialDefinition {
    pub schema_id: String,
    pub issuer_id: String,
    pub tag: String,
    pub value_json: String,
}

impl CredentialDefinition {
    /// Assembles a credential definition value from its parts.
    pub fn new(schema_id: String, issuer_id: String, tag: String, value_json: String) -> (r:
        CredentialDefinition)
        ensures
            r == (CredentialDefinition { schema_id, issuer_id, tag, value_json }),
    {
        CredentialDefinition { schema_id, issuer_id, tag, value_json }
    }

    pub fn schema_id(&self) -> (r: String)
        ensures
            r@ == self.schema_id@,
    {
        self.schema_id.clone()
    }

    /// The credential definition's ledger identifier.
    pub fn cred_def_id(&self) -> (r: String)
        ensures
            r@ == cred_def_id_text(self.issuer_id@, self.schema_id@, self.tag@),
    {
        let mut out = self.issuer_id.clone();
        out.append(":3:CL:");
        out.append(self.schema_id.as_str());
        out.append(":");
        out.append(self.tag.as_str());
        out
    }

    pub fn issuer_id(&self) -> (r: String)
        ensures
            r@ == self.issuer_id@,
    {
        self.issuer_id.clone()
    }
}

/// A credential offer: the schema and credential definition it is for, the
/// issuer's key-correctness proof, and the fresh offer nonce.
#[derive(Debug, Clone, PartialEq, Eq)]
pub struct CredentialOffer {
    pub schema_id: String,
    pub cred_def_id: String,
    pub key_correctness_proof_json: String,
    pub nonce: String,
}

impl CredentialOffer {
    /// Assembles a credential offer value from its parts.
    pub fn new(
        schema_id: String,
        cred_def_id: String,
        key_correctness_proof_json: String,
        nonce: String,
    ) -> (r: CredentialOffer)
        ensures
            r == (CredentialOffer { schema_id, cred_def_id, key_correctness_proof_json, nonce }),
    {
        CredentialOffer { schema_id, cred_def_id, key_correctness_proof_json, nonce }
    }

    pub fn cred_def_id(&self) -> (r: String)
        ensures
            r@ == self.cred_def_id@,
    {
        self.cred_def_id.clone()
    }
}

/// A revocation registry definition: the issuer, the credential definition it
/// revokes for, a tag, the registry capacity, where its tails file lives, and
/// the registry's public keys as an opaque document.
#[derive(Debug, Clone, PartialEq, Eq)]
pub struct RevocationRegistryDefinition {
    pub issuer_id: String,
    pub cred_def_id: String,
    pub tag: String,
    pub max_cred_num: u32,
    pub tails_hash: String,
    pub tails_location: String,
    pub public_keys_json: String,
}

impl RevocationRegistryDefinition {
    /// Assembles a revocation registry definition value from its parts.
    pub fn new(
        issuer_id: String,
        cred_def_id: String,
        tag: String,
        max_cred_num: u32,
        tails_hash: String,
        tails_location: String,
        public_keys_json: String,
    ) -> (r: RevocationRegistryDefinition)
        ensures
            r == (RevocationRegistryDefinition {
                issuer_id,
                cred_def_id,
                tag,
                max_cred_num,
                tails_hash,
                tails_location,
                public_keys_json,
            }),
    {
        RevocationRegistryDefinition {
            issuer_id,
            cred_def_id,
            tag,
            max_cred_num,
            tails_hash,
            tails_location,
            public_keys_json,
        }
    }

    pub fn max_cred_num(&self) -> (r: u32)
        ensures
            r == self.max_cred_num,
    {
        self.max_cred_num
    }

    pub fn tails_hash(&self) -> (r: String)
        ensures
            r@ == self.tails_hash@,
    {
        self.tails_hash.clone()
    }

    pub fn tails_location(&self) -> (r: String)
        ensures
            r@ == self.tails_location@,
    {
        self.tails_location.clone()
    }

    /// The revocation registry's ledger identifier.
    pub fn rev_reg_id(&self) -> (r: String)
        ensures
            r@ == rev_reg_id_text(self.issuer_id@, self.cred_def_id@, self.tag@),
    {
        let mut out = self.issuer_id.clone();
        out.append(":4:");
        out.append(self.cred_def_id.as_str());
        out.append(":CL_ACCUM:");
        out.append(self.tag.as_str());
        out
    }

    pub fn issuer_id(&self) -> (r: String)
        ensures
            r@ == self.issuer_id@,
    {
        self.issuer_id.clone()
    }
}

/// One attribute of an issued credential: its name, the raw value, and the
/// encoded form the signature covers — caller-supplied, or computed from the
/// raw value at issuance.
#[derive(Debug, Clone, PartialEq, Eq)]
pub struct CredentialAttr {
    pub name: String,
    pub raw: String,
    pub encoded: String,
}

/// An issued credential: what it attests, where it can be revoked, and the
/// issuer's signature as an opaque document.
#[derive(Debug, Clone, PartialEq, Eq)]
pub struct Credential {
    pub schema_id: String,
    pub cred_def_id: String,
    pub rev_reg_id: Option<String>,
    pub rev_reg_index: Option<u32>,
    pub values: Vec<CredentialAttr>,
    pub signature_json: String,
}

impl Credential {
    /// Assembles a credential value from its parts.
    pub fn new(
        schema_id: String,
        cred_def_id: String,
        rev_reg_id: Option<String>,
        rev_reg_index: Option<u32>,
        values: Vec<CredentialAttr>,
        signature_json: String,
    ) -> (r: Credential)
        ensures
            r == (Credential {
                schema_id,
                cred_def_id,
                rev_reg_id,
                rev_reg_index,
                values,
                signature_json,
            }),
    {
        Credential { schema_id, cred_def_id, rev_reg_id, rev_reg_index, values, signature_json }
    }

    pub fn schema_id(&self) -> (r: String)
        ensures
            r@ == self.schema_id@,
    {
        self.schema_id.clone()
    }

    pub fn cred_def_id(&self) -> (r: String)
        ensures
            r@ == self.cred_def_id@,
    {
        self.cred_def_id.clone()
    }

    pub fn rev_reg_id(&self) -> (r: Option<String>)
        ensures
            self.rev_reg_id is Some <==> r is Some,
            self.rev_reg_id matches Some(id) ==> (r matches Some(rid) && rid@ == id@),
    {
        match &self.rev_reg_id {
            Some(id) => Some(id.clone()),
            None => None,
        }
    }

    pub fn rev_reg_index(&self) -> (r: Option<u32>)
        ensures
            r == self.rev_reg_index,
    {
        self.rev_reg_index
    }

    /// The attribute names and their raw values, in the order they were
    /// supplied at issuance.
    pub fn values(&self) -> (r: Vec<(String, String)>)
        ensures
            r@.len() == self.values@.len(),
            forall|i: int|
                0 <= i < r@.len() ==> (#[trigger] r@[i]).0@ == self.values@[i].name@ && r@[i].1@
                    == self.values@[i].raw@,
    {
        let mut out: Vec<(String, String)> = Vec::new();
        let mut i: usize = 0;
        while i < self.values.len()
            invariant
                i <= self.values@.len(),
                out@.len() == i,
                forall|j: int|
                    0 <= j < i ==> (#[trigger] out@[j]).0@ == self.values@[j].name@ && out@[j].1@
                        == self.values@[j].raw@,
            decreases self.values@.len() - i,
        {
            let name = self.values[i].name.clone();
            let raw = self.values[i].raw.clone();
            out.push((name, raw));
            i += 1;
        }
        out
    }
}

fn check_blob(json: &String) -> (r: Result<(), ErrorCode>)
    ensures
        r is Ok <==> json_well_formed(json@),
        r matches Err(e) ==> (e matches ErrorCode::Input { message } && message@
            == "Malformed JSON document"@),
{
    if json_text_well_formed(json.as_str()) {
        Ok(())
    } else {
        Err(ErrorCode::Input { message: "Malformed JSON document".to_owned() })
    }
}

/// The issuer's private credential-definition key material, opaque.
#[derive(Debug, Clone, PartialEq, Eq)]
pub struct CredentialDefinitionPrivate {
    pub json: String,
}

impl CredentialDefinitionPrivate {
    /// Wraps the document; fails `Input` on malformed JSON.
    pub fn new(json: String) -> (r: Result<CredentialDefinitionPrivate, ErrorCode>)
        ensures
            r is Ok <==> json_well_formed(json@),
            r matches Ok(v) ==> v.json == json,
    {
        check_blob(&json)?;
        Ok(CredentialDefinitionPrivate { json })
    }

    pub fn to_json(&self) -> (r: String)
        ensures
            r@ == self.json@,
    {
        self.json.clone()
    }
}

/// The issuer's key-correctness proof, opaque.
#[derive(Debug, Clone, PartialEq, Eq)]
pub struct CredentialKeyCorrectnessProof {
    pub json: String,
}

impl CredentialKeyCorrectnessProof {
    /// Wraps the document; fails `Input` on malformed JSON.
    pub fn new(json: String) -> (r: Result<CredentialKeyCorrectnessProof, ErrorCode>)
        ensures
            r is Ok <==> json_well_formed(json@),
            r matches Ok(v) ==> v.json == json,
    {
        check_blob(&json)?;
        Ok(CredentialKeyCorrectnessProof { json })
    }

    pub fn to_json(&self) -> (r: String)
        ensures
            r@ == self.json@,
    {
        self.json.clone()
    }
}

/// A holder's credential request, opaque.
#[derive(Debug, Clone, PartialEq, Eq)]
pub struct CredentialRequest {
    pub json: String,
}

impl CredentialRequest {
    /// Wraps the document; fails `Input` on malformed JSON.
    pub fn new(json: String) -> (r: Result<CredentialRequest, ErrorCode>)
        ensures
            r is Ok <==> json_well_formed(json@),
            r matches Ok(v) ==> v.json == json,
    {
        check_blob(&json)?;
        Ok(CredentialRequest { json })
    }

    pub fn to_json(&self) -> (r: String)
        ensures
            r@ == self.json@,
    {
        self.json.clone()
    }
}

/// The holder-side metadata of a credential request, opaque.
#[derive(Debug, Clone, PartialEq, Eq)]
pub struct CredentialRequestMetadata {
    pub json: String,
}

impl CredentialRequestMetadata {
    /// Wraps the document; fails `Input` on malformed JSON.
    pub fn new(json: String) -> (r: Result<CredentialRequestMetadata, ErrorCode>)
        ensures
            r is Ok <==> json_well_formed(json@),
            r matches Ok(v) ==> v.json == json,
    {
        check_blob(&json)?;
        Ok(CredentialRequestMetadata { json })
    }

    pub fn to_json(&self) -> (r: String)
        ensures
            r@ == self.json@,
    {
        self.json.clone()
    }
}

/// A holder's revocation state at one point in time, opaque.
#[derive(Debug, Clone, PartialEq, Eq)]
pub struct CredentialRevocationState {
    pub json: String,
}

impl CredentialRevocationState {
    /// Wraps the document; fails `Input` on malformed JSON.
    pub fn new(json: String) -> (r: Result<CredentialRevocationState, ErrorCode>)
        ensures
            r is Ok <==> json_well_formed(json@),
            r matches Ok(v) ==> v.json == json,
    {
        check_blob(&json)?;
        Ok(CredentialRevocationState { json })
    }

    pub fn to_json(&self) -> (r: String)
        ensures
            r@ == self.json@,
    {
        self.json.clone()
    }
}

/// A published revocation status list, opaque.
#[derive(Debug, Clone, PartialEq, Eq)]
pub struct RevocationStatusList {
    pub json: String,
}

impl RevocationStatusList {
    /// Wraps the document; fails `Input` on malformed JSON.
    pub fn new(json: String) -> (r: Result<RevocationStatusList, ErrorCode>)
        ensures
            r is Ok <==> json_well_formed(json@),
            r matches Ok(v) ==> v.json == json,
    {
        check_blob(&json)?;
        Ok(RevocationStatusList { json })
    }

    pub fn to_json(&self) -> (r: String)
        ensures
            r@ == self.json@,
    {
        self.json.clone()
    }
}

/// A proof request, opaque.
#[derive(Debug, Clone, PartialEq, Eq)]
pub struct PresentationRequest {
    pub json: String,
}

impl PresentationRequest {
    /// Wraps the document; fails `Input` on malformed JSON.
    pub fn new(json: String) -> (r: Result<PresentationRequest, ErrorCode>)
        ensures
            r is Ok <==> json_well_formed(json@),
            r matches Ok(v) ==> v.json == json,
    {
        check_blob(&json)?;
        Ok(PresentationRequest { json })
    }

    pub fn to_json(&self) -> (r: String)
        ensures
            r@ == self.json@,
    {
        self.json.clone()
    }
}

/// A presented proof, opaque.
#[derive(Debug, Clone, PartialEq, Eq)]
pub struct Presentation {
    pub json: String,
}

impl Presentation {
    /// Wraps the document; fails `Input` on malformed JSON.
    pub fn new(json: String) -> (r: Result<Presentation, ErrorCode>)
        ensures
            r is Ok <==> json_well_formed(json@),
            r matches Ok(v) ==> v.json == json,
    {
        check_blob(&json)?;
        Ok(Presentation { json })
    }

    pub fn to_json(&self) -> (r: String)
        ensures
            r@ == self.json@,
    {
        self.json.clone()
    }
}

/// The issuer's private revocation-registry key material, opaque.
#[derive(Debug, Clone, PartialEq, Eq)]
pub struct RevocationRegistryDefinitionPrivate {
    pub json: String,
}

impl RevocationRegistryDefinitionPrivate {
    /// Wraps the document; fails `Input` on malformed JSON.
    pub fn new(json: String) -> (r: Result<RevocationRegistryDefinitionPrivate, ErrorCode>)
        ensures
            r is Ok <==> json_well_formed(json@),
            r matches Ok(v) ==> v.json == json,
    {
        check_blob(&json)?;
        Ok(RevocationRegistryDefinitionPrivate { json })
    }

    pub fn to_json(&self) -> (r: String)
        ensures
            r@ == self.json@,
    {
        self.json.clone()
    }
}

/// An accumulator delta of a revocation registry, opaque.
#[derive(Debug, Clone, PartialEq, Eq)]
pub struct RevocationRegistryDelta {
    pub json: String,
}

impl RevocationRegistryDelta {
    /// Wraps the document; fails `Input` on malformed JSON.
    pub fn new(json: String) -> (r: Result<RevocationRegistryDelta, ErrorCode>)
        ensures
            r is Ok <==> json_well_formed(json@),
            r matches Ok(v) ==> v.json == json,
    {
        check_blob(&json)?;
        Ok(RevocationRegistryDelta { json })
    }

    pub fn to_json(&self) -> (r: String)
        ensures
            r@ == self.json@,
    {
        self.json.clone()
    }
}

/// A freshly created credential definition with its private key material and
/// key-correctness proof.
#[derive(Debug, Clone, PartialEq, Eq)]
pub struct CredentialDefinitionTuple {
    pub cred_def: CredentialDefinition,
    pub cred_def_priv: CredentialDefinitionPrivate,
    pub key_correctness_proof: CredentialKeyCorrectnessProof,
}

/// A freshly created credential request with its holder-side metadata.
#[derive(Debug, Clone, PartialEq, Eq)]
pub struct CredentialRequestTuple {
    pub request: CredentialRequest,
    pub metadata: CredentialRequestMetadata,
}

/// A freshly created revocation registry definition with its private key
/// material.
#[derive(Debug, Clone, PartialEq, Eq)]
pub struct RevocationRegistryDefinitionTuple {
    pub rev_reg_def: RevocationRegistryDefinition,
    pub rev_reg_def_priv: RevocationRegistryDefinitionPrivate,
}

/// Everything needed to issue a revocable credential against one registry.
#[derive(Debug, Clone, PartialEq, Eq)]
pub struct CredentialRevocationConfig {
    pub reg_def: RevocationRegistryDefinition,
    pub reg_def_private: RevocationRegistryDefinitionPrivate,
    pub status_list: RevocationStatusList,
    pub registry_index: u32,
}

/// One credential presented in a proof, with the attributes and predicates
/// it answers.
#[derive(Debug, Clone, PartialEq, Eq)]
pub struct RequestedCredential {
    pub cred: Credential,
    pub timestamp: Option<u64>,
    pub rev_state: Option<CredentialRevocationState>,
    pub requested_attributes: Vec<(String, bool)>,
    pub requested_predicates: Vec<String>,
}

/// The view of an optional text.
pub open spec fn encoded_view(v: Option<String>) -> Option<Seq<char>> {
    match v {
        Some(s) => Some(s@),
        None => None,
    }
}

/// Two attribute lists attest the same names, raw values and encoded forms.
pub open spec fn attrs_view_equal(a: Seq<CredentialAttr>, b: Seq<CredentialAttr>) -> bool {
    a.len() == b.len() && forall|i: int|
        0 <= i < a.len() ==> (#[trigger] a[i]).name@ == b[i].name@ && a[i].raw@ == b[i].raw@
            && a[i].encoded@ == b[i].encoded@
}

/// Copies an optional text.
pub fn clone_opt_string(v: &Option<String>) -> (r: Option<String>)
    ensures
        encoded_view(r) == encoded_view(*v),
{
    match v {
        Some(s) => Some(s.clone()),
        None => None,
    }
}

/// Copies an attribute list.
pub fn clone_attrs(v: &Vec<CredentialAttr>) -> (r: Vec<CredentialAttr>)
    ensures
        attrs_view_equal(r@, v@),
{
    let mut out: Vec<CredentialAttr> = Vec::new();
    let mut i: usize = 0;
    while i < v.len()
        invariant
            i <= v@.len(),
            out@.len() == i,
            forall|j: int|
                0 <= j < i ==> (#[trigger] out@[j]).name@ == v@[j].name@ && out@[j].raw@
                    == v@[j].raw@ && out@[j].encoded@ == v@[j].encoded@,
        decreases v@.len() - i,
    {
        let name = v[i].name.clone();
        let raw = v[i].raw.clone();
        let encoded = v[i].encoded.clone();
        out.push(CredentialAttr { name, raw, encoded });
        i += 1;
    }
    out
}


/// The JSON text of an array of strings, items escaped and comma-separated.
pub open spec fn str_array_text(items: Seq<Seq<char>>) -> Seq<char>
    decreases items.len(),
{
    if items.len() == 0 {
        Seq::empty()
    } else if items.len() == 1 {
        "\""@ + escape_text(items[0]) + "\""@
    } else {
        str_array_text(items.drop_last()) + ",\""@ + escape_text(items.last()) + "\""@
    }
}

proof fn lemma_str_array_push(items: Seq<Seq<char>>, x: Seq<char>)
    requires
        items.len() > 0,
    ensures
        str_array_text(items.push(x)) == str_array_text(items) + ",\""@ + escape_text(x) + "\""@,
    decreases items.len(),
{
    assert(items.push(x).drop_last() =~= items);
    assert(items.push(x).last() == x);
}

/// Appends the JSON array items for the given strings.
#[verifier::loop_isolation(false)]
fn append_str_array(out: &mut String, items: &Vec<String>)
    ensures
        final(out)@ == old(out)@ + str_array_text(view_lines(items@)),
{
    let mut i: usize = 0;
    while i < items.len()
        invariant
            i <= items@.len(),
            out@ == old(out)@ + str_array_text(view_lines(items@).subrange(0, i as int)),
        decreases items@.len() - i,
    {
        let ghost pref = view_lines(items@).subrange(0, i as int);
        if i > 0 {
            out.append(",\"");
        } else {
            out.append("\"");
        }
        escape_into(out, items[i].as_str());
        out.append("\"");
        proof {
            assert(view_lines(items@).subrange(0, i + 1) =~= pref.push(items@[i as int]@));
            if i > 0 {
                lemma_str_array_push(pref, items@[i as int]@);
            }
            assert(out@ =~= old(out)@ + str_array_text(view_lines(items@).subrange(0, i + 1)));
        }
        i += 1;
    }
    proof {
        assert(view_lines(items@).subrange(0, items@.len() as int) =~= view_lines(items@));
    }
}

/// The JSON entry of one credential attribute inside the values object.
pub open spec fn attr_entry_text(a: CredentialAttr) -> Seq<char> {
    "\""@ + escape_text(a.name@) + "\":{\"raw\":\""@ + escape_text(a.raw@)
        + "\",\"encoded\":\""@ + escape_text(a.encoded@) + "\"}"@
}

/// The JSON entries of an ordered attribute list, comma-separated.
pub open spec fn attrs_text(vs: Seq<CredentialAttr>) -> Seq<char>
    decreases vs.len(),
{
    if vs.len() == 0 {
        Seq::empty()
    } else if vs.len() == 1 {
        attr_entry_text(vs[0])
    } else {
        attrs_text(vs.drop_last()) + ","@ + attr_entry_text(vs.last())
    }
}

proof fn lemma_attrs_push(vs: Seq<CredentialAttr>, a: CredentialAttr)
    requires
        vs.len() > 0,
    ensures
        attrs_text(vs.push(a)) == attrs_text(vs) + ","@ + attr_entry_text(a),
    decreases vs.len(),
{
    assert(vs.push(a).drop_last() =~= vs);
    assert(vs.push(a).last() == a);
}

/// Appends the JSON values-object entries for the given attributes.
#[verifier::loop_isolation(false)]
fn append_attrs(out: &mut String, vs: &Vec<CredentialAttr>)
    ensures
        final(out)@ == old(out)@ + attrs_text(vs@),
{
    let mut i: usize = 0;
    while i < vs.len()
        invariant
            i <= vs@.len(),
            out@ == old(out)@ + attrs_text(vs@.subrange(0, i as int)),
        decreases vs@.len() - i,
    {
        let ghost pref = vs@.subrange(0, i as int);
        if i > 0 {
            out.append(",");
        }
        out.append("\"");
        escape_into(out, vs[i].name.as_str());
        out.append("\":{\"raw\":\"");
        escape_into(out, vs[i].raw.as_str());
        out.append("\",\"encoded\":\"");
        escape_into(out, vs[i].encoded.as_str());
        out.append("\"}");
        proof {
            assert(vs@.subrange(0, i + 1) =~= pref.push(vs@[i as int]));
            if i > 0 {
                lemma_attrs_push(pref, vs@[i as int]);
            }
            assert(out@ =~= old(out)@ + attrs_text(vs@.subrange(0, i + 1)));
        }
        i += 1;
    }
    proof {
        assert(vs@.subrange(0, vs@.len() as int) =~= vs@);
    }
}

/// The serialized form of a schema.
pub open spec fn schema_json_text(s: Schema) -> Seq<char> {
    "{\"issuerId\":\""@ + escape_text(s.issuer_id@) + "\",\"name\":\""@ + escape_text(s.name@)
        + "\",\"version\":\""@ + escape_text(s.version@) + "\",\"attrNames\":["@
        + str_array_text(view_lines(s.attr_names@)) + "]}"@
}

/// The serialized form of a credential definition; the key material document
/// is embedded verbatim.
pub open spec fn cred_def_json_text(c: CredentialDefinition) -> Seq<char> {
    "{\"issuerId\":\""@ + escape_text(c.issuer_id@) + "\",\"schemaId\":\""@ + escape_text(
        c.schema_id@,
    ) + "\",\"type\":\"CL\",\"tag\":\""@ + escape_text(c.tag@) + "\",\"value\":"@ + c.value_json@
        + "}"@
}

/// The serialized form of a credential offer; the key-correctness proof is
/// embedded verbatim.
pub open spec fn cred_offer_json_text(o: CredentialOffer) -> Seq<char> {
    "{\"schemaId\":\""@ + escape_text(o.schema_id@) + "\",\"credDefId\":\""@ + escape_text(
        o.cred_def_id@,
    ) + "\",\"keyCorrectnessProof\":"@ + o.key_correctness_proof_json@ + ",\"nonce\":\""@
        + escape_text(o.nonce@) + "\"}"@
}

/// The serialized form of a revocation registry definition; the registry's
/// public keys are embedded verbatim.
pub open spec fn rev_reg_def_json_text(d: RevocationRegistryDefinition) -> Seq<char> {
    "{\"issuerId\":\""@ + escape_text(d.issuer_id@) + "\",\"revocDefType\":\"CL_ACCUM\",\"credDefId\":\""@
        + escape_text(d.cred_def_id@) + "\",\"tag\":\""@ + escape_text(d.tag@)
        + "\",\"value\":{\"maxCredNum\":"@ + dec_text(d.max_cred_num as nat)
        + ",\"tailsHash\":\""@ + escape_text(d.tails_hash@) + "\",\"tailsLocation\":\""@
        + escape_text(d.tails_location@) + "\",\"publicKeys\":"@ + d.public_keys_json@ + "}}"@
}

/// The serialized form of an issued credential; the signature document is
/// embedded verbatim.
pub open spec fn credential_json_text(c: Credential) -> Seq<char> {
    "{\"schemaId\":\""@ + escape_text(c.schema_id@) + "\",\"credDefId\":\""@ + escape_text(
        c.cred_def_id@,
    ) + "\""@ + (match c.rev_reg_id {
        Some(id) => ",\"revRegId\":\""@ + escape_text(id@) + "\""@,
        None => Seq::empty(),
    }) + (match c.rev_reg_index {
        Some(n) => ",\"revRegIndex\":"@ + dec_text(n as nat),
        None => Seq::empty(),
    }) + ",\"values\":{"@ + attrs_text(c.values@) + "},\"signature\":"@ + c.signature_json@
        + "}"@
}

impl Schema {
    /// The serialized schema document.
    pub fn to_json(&self) -> (r: String)
        ensures
            r@ == schema_json_text(*self),
    {
        let mut out = String::new();
        out.append("{\"issuerId\":\"");
        escape_into(&mut out, self.issuer_id.as_str());
        out.append("\",\"name\":\"");
        escape_into(&mut out, self.name.as_str());
        out.append("\",\"version\":\"");
        escape_into(&mut out, self.version.as_str());
        out.append("\",\"attrNames\":[");
        append_str_array(&mut out, &self.attr_names);
        out.append("]}");
        proof {
            assert(out@ =~= schema_json_text(*self));
        }
        out
    }
}

impl CredentialDefinition {
    /// The serialized credential definition document.
    pub fn to_json(&self) -> (r: String)
        ensures
            r@ == cred_def_json_text(*self),
    {
        let mut out = String::new();
        out.append("{\"issuerId\":\"");
        escape_into(&mut out, self.issuer_id.as_str());
        out.append("\",\"schemaId\":\"");
        escape_into(&mut out, self.schema_id.as_str());
        out.append("\",\"type\":\"CL\",\"tag\":\"");
        escape_into(&mut out, self.tag.as_str());
        out.append("\",\"value\":");
        out.append(self.value_json.as_str());
        out.append("}");
        proof {
            assert(out@ =~= cred_def_json_text(*self));
        }
        out
    }
}

impl CredentialOffer {
    /// The serialized credential offer document.
    pub fn to_json(&self) -> (r: String)
        ensures
            r@ == cred_offer_json_text(*self),
    {
        let mut out = String::new();
        out.append("{\"schemaId\":\"");
        escape_into(&mut out, self.schema_id.as_str());
        out.append("\",\"credDefId\":\"");
        escape_into(&mut out, self.cred_def_id.as_str());
        out.append("\",\"keyCorrectnessProof\":");
        out.append(self.key_correctness_proof_json.as_str());
        out.append(",\"nonce\":\"");
        escape_into(&mut out, self.nonce.as_str());
        out.append("\"}");
        proof {
            assert(out@ =~= cred_offer_json_text(*self));
        }
        out
    }
}

impl RevocationRegistryDefinition {
    /// The serialized revocation registry definition document.
    pub fn to_json(&self) -> (r: String)
        ensures
            r@ == rev_reg_def_json_text(*self),
    {
        let mut out = String::new();
        out.append("{\"issuerId\":\"");
        escape_into(&mut out, self.issuer_id.as_str());
        out.append("\",\"revocDefType\":\"CL_ACCUM\",\"credDefId\":\"");
        escape_into(&mut out, self.cred_def_id.as_str());
        out.append("\",\"tag\":\"");
        escape_into(&mut out, self.tag.as_str());
        out.append("\",\"value\":{\"maxCredNum\":");
        append_u64(&mut out, self.max_cred_num as u64);
        out.append(",\"tailsHash\":\"");
        escape_into(&mut out, self.tails_hash.as_str());
        out.append("\",\"tailsLocation\":\"");
        escape_into(&mut out, self.tails_location.as_str());
        out.append("\",\"publicKeys\":");
        out.append(self.public_keys_json.as_str());
        out.append("}}");
        proof {
            assert(out@ =~= rev_reg_def_json_text(*self));
        }
        out
    }
}

impl Credential {
    /// The serialized credential document.
    pub fn to_json(&self) -> (r: String)
        ensures
            r@ == credential_json_text(*self),
    {
        let mut out = String::new();
        out.append("{\"schemaId\":\"");
        escape_into(&mut out, self.schema_id.as_str());
        out.append("\",\"credDefId\":\"");
        escape_into(&mut out, self.cred_def_id.as_str());
        out.append("\"");
        match &self.rev_reg_id {
            Some(id) => {
                out.append(",\"revRegId\":\"");
                escape_into(&mut out, id.as_str());
                out.append("\"");
            },
            None => {},
        }
        match self.rev_reg_index {
            Some(n) => {
                out.append(",\"revRegIndex\":");
                append_u64(&mut out, n as u64);
            },
            None => {},
        }
        out.append(",\"values\":{");
        append_attrs(&mut out, &self.values);
        out.append("},\"signature\":");
        out.append(self.signature_json.as_str());
        out.append("}");
        proof {
            assert(out@ =~= credential_json_text(*self));
        }
        out
    }
}

} // verus!
