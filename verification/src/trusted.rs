//! The crate's trusted boundary: thin wrappers around outside functions whose
//! contracts Verus believes without proof.  Everything else in the library is
//! proved against the contracts stated here.

use vstd::prelude::*;

verus! {

/// What `serde_json::from_str::<serde_json::Value>` accepts of a text: the
/// text is one well-formed JSON document.  The result depends on the
/// characters of the text alone.
pub uninterp spec fn json_well_formed(s: Seq<char>) -> bool;

/// Relies on `serde_json::from_str::<serde_json::Value>`: it returns `Ok`
/// exactly when the input is one well-formed JSON document.
#[verifier::external_body]
pub(crate) fn json_text_well_formed(s: &str) -> (r: bool)
    ensures
        r == json_well_formed(s@),
{
    serde_json::from_str::<serde_json::Value>(s).is_ok()
}

/// The SHA-256 digest of a byte sequence, as a function of the bytes alone.
pub uninterp spec fn sha256_of(data: Seq<u8>) -> Seq<u8>;

/// Relies on `sha2::Sha256` (SHA-256 of FIPS 180-4): the digest is a function
/// of the input bytes alone, and is documented to be 32 bytes long.
#[verifier::external_body]
pub(crate) fn sha256(data: &[u8]) -> (r: Vec<u8>)
    ensures
        r@ == sha256_of(data@),
        r@.len() == 32,
{
    let digest = <sha2::Sha256 as sha2::Digest>::digest(data);
    digest.to_vec()
}

/// Relies on `String::push`: it appends exactly the given character.
#[verifier::external_body]
pub(crate) fn push_char(s: &mut String, c: char)
    ensures
        final(s)@ == old(s)@ + seq![c],
{
    s.push(c);
}

/// What `anoncreds_clsignatures::hash_credential_attribute` returns for an
/// attribute text: the SHA-256 of the text, rendered as a decimal number
/// string.  The result is a function of the characters alone.
pub uninterp spec fn attribute_hash_text(raw: Seq<char>) -> Seq<char>;

/// Relies on `anoncreds_clsignatures::hash_credential_attribute`: the SHA-256
/// of the attribute text as a decimal number string, a function of the text
/// alone; it fails only when the big-number arithmetic underneath does.
#[verifier::external_body]
pub(crate) fn hash_attribute_text(raw: &str) -> (r: Result<
    String,
    crate::creds::error::ErrorCode,
>)
    ensures
        r matches Ok(s) ==> s@ == attribute_hash_text(raw@) && crate::ids::is_decimal_text(s@),
        r matches Err(e) ==> e matches crate::creds::error::ErrorCode::Unexpected { .. },
{
    match anoncreds_clsignatures::hash_credential_attribute(raw) {
        Ok(s) => Ok(s),
        Err(e) => Err(crate::creds::error::ErrorCode::Unexpected { message: e.to_string() }),
    }
}

/// Relies on `anoncreds_clsignatures::new_nonce` and `BigNumber::to_dec`: a
/// fresh 80-bit proof-request nonce, rendered as a decimal string.  The value
/// depends on the process's randomness source, so nothing is promised of it
/// beyond its shape; a failure of the draw surfaces as `Unexpected`.
#[verifier::external_body]
pub(crate) fn fresh_nonce_text() -> (r: Result<String, crate::creds::error::ErrorCode>)
    ensures
        r matches Ok(s) ==> crate::ids::is_decimal_text(s@),
        r matches Err(e) ==> e matches crate::creds::error::ErrorCode::Unexpected { .. },
{
    match anoncreds_clsignatures::new_nonce().and_then(|n| n.to_dec()) {
        Ok(s) => Ok(s),
        Err(e) => Err(crate::creds::error::ErrorCode::Unexpected { message: e.to_string() }),
    }
}

/// Relies on `anoncreds_clsignatures::Prover::new_link_secret` and
/// `BigNumber::to_dec`: a fresh link secret, rendered as a decimal string.
/// The value depends on the process's randomness source, so nothing is
/// promised of it beyond its shape; a failure of the draw surfaces as
/// `Unexpected`.
#[verifier::external_body]
pub(crate) fn fresh_link_secret_text() -> (r: Result<String, crate::creds::error::ErrorCode>)
    ensures
        r matches Ok(s) ==> crate::ids::is_decimal_text(s@),
        r matches Err(e) ==> e matches crate::creds::error::ErrorCode::Unexpected { .. },
{
    let drawn = anoncreds_clsignatures::Prover::new_link_secret().and_then(|sec| sec.value())
        .and_then(|bn| bn.to_dec());
    match drawn {
        Ok(s) => Ok(s),
        Err(e) => Err(crate::creds::error::ErrorCode::Unexpected { message: e.to_string() }),
    }
}

} // verus!
