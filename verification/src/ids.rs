//! Verified validation of identifier-shaped string inputs: DID-like
//! identifiers, ledger object identifiers, and decimal number strings.
//! The request builder and the credential services reject malformed
//! identifiers with an `Input` error before any other work happens.

use vstd::prelude::*;

verus! {

/// A character of the base-58 alphabet (digits and letters without 0, O, I, l).
pub open spec fn is_base58_char(c: char) -> bool {
    ('1' <= c && c <= '9') || ('A' <= c && c <= 'H') || ('J' <= c && c <= 'N') || ('P' <= c && c
        <= 'Z') || ('a' <= c && c <= 'k') || ('m' <= c && c <= 'z')
}

/// A character allowed in the method name of a qualified identifier.
pub open spec fn is_method_char(c: char) -> bool {
    ('a' <= c && c <= 'z') || ('0' <= c && c <= '9')
}

/// A character allowed in the method-specific part of a qualified identifier.
pub open spec fn is_id_char(c: char) -> bool {
    ('a' <= c && c <= 'z') || ('A' <= c && c <= 'Z') || ('0' <= c && c <= '9') || c == '.' || c
        == '-' || c == '_' || c == ':' || c == '%'
}

/// A character allowed in a ledger object identifier (schema, credential
/// definition, or revocation registry identifier).
pub open spec fn is_object_id_char(c: char) -> bool {
    ('a' <= c && c <= 'z') || ('A' <= c && c <= 'Z') || ('0' <= c && c <= '9') || c == '.' || c
        == '-' || c == '_' || c == ':'
}

/// A decimal digit.
pub open spec fn is_dec_char(c: char) -> bool {
    '0' <= c && c <= '9'
}

/// The index of the first `':'` at or after position `i`, or the length of
/// the text when there is none.
pub open spec fn colon_from(s: Seq<char>, i: int) -> int
    decreases s.len() - i,
    when 0 <= i <= s.len()
{
    if i >= s.len() {
        s.len() as int
    } else if s[i] == ':' {
        i
    } else {
        colon_from(s, i + 1)
    }
}

proof fn lemma_colon_from(s: Seq<char>, i: int, k: int)
    requires
        0 <= i <= k <= s.len(),
        forall|j: int| i <= j < k ==> s[j] != ':',
        k == s.len() || s[k] == ':',
    ensures
        colon_from(s, i) == k,
    decreases k - i,
{
    if i < k {
        assert(s[i] != ':');
        lemma_colon_from(s, i + 1, k);
    }
}

/// The text starts with the qualified-identifier prefix `did:`.
pub open spec fn has_did_prefix(s: Seq<char>) -> bool {
    s.len() >= 4 && s[0] == 'd' && s[1] == 'i' && s[2] == 'd' && s[3] == ':'
}

/// A qualified identifier: `did:` followed by a non-empty method name of
/// lower-case letters and digits, a `':'` separator, and a non-empty
/// method-specific part of identifier characters.
pub open spec fn is_qualified_did(s: Seq<char>) -> bool {
    let m = colon_from(s, 4);
    &&& has_did_prefix(s)
    &&& m > 4
    &&& m + 1 < s.len()
    &&& forall|i: int| 4 <= i < m ==> is_method_char(s[i])
    &&& forall|i: int| m < i < s.len() ==> is_id_char(s[i])
}

/// An unqualified identifier: 21 or 22 base-58 characters.
pub open spec fn is_unqualified_did(s: Seq<char>) -> bool {
    21 <= s.len() <= 22 && forall|i: int| 0 <= i < s.len() ==> is_base58_char(s[i])
}

/// A DID-like identifier accepted by the request builder.
pub open spec fn is_valid_did(s: Seq<char>) -> bool {
    is_qualified_did(s) || is_unqualified_did(s)
}

/// A ledger object identifier: non-empty, of identifier characters.
pub open spec fn is_valid_object_id(s: Seq<char>) -> bool {
    s.len() > 0 && forall|i: int| 0 <= i < s.len() ==> is_object_id_char(s[i])
}

/// A decimal number string: non-empty, of decimal digits.
pub open spec fn is_decimal_text(s: Seq<char>) -> bool {
    s.len() > 0 && forall|i: int| 0 <= i < s.len() ==> is_dec_char(s[i])
}

fn validate_unqualified_did(s: &str) -> (r: bool)
    ensures
        r == is_unqualified_did(s@),
{
    let n = s.unicode_len();
    if n < 21 || n > 22 {
        return false;
    }
    let mut i: usize = 0;
    while i < n
        invariant
            n == s@.len(),
            i <= n,
            forall|j: int| 0 <= j < i ==> is_base58_char(s@[j]),
        decreases n - i,
    {
        let c = s.get_char(i);
        let ok = ('1' <= c && c <= '9') || ('A' <= c && c <= 'H') || ('J' <= c && c <= 'N') || ('P'
            <= c && c <= 'Z') || ('a' <= c && c <= 'k') || ('m' <= c && c <= 'z');
        if !ok {
            assert(!is_base58_char(s@[i as int]));
            return false;
        }
        i += 1;
    }
    true
}

#[verifier::loop_isolation(false)]
fn validate_qualified_did(s: &str) -> (r: bool)
    requires
        has_did_prefix(s@),
    ensures
        r == is_qualified_did(s@),
{
    let n = s.unicode_len();
    let mut m: usize = 4;
    while m < n && s.get_char(m) != ':'
        invariant
            n == s@.len(),
            4 <= m <= n,
            forall|j: int| 4 <= j < m ==> s@[j] != ':',
        decreases n - m,
    {
        m += 1;
    }
    proof {
        lemma_colon_from(s@, 4, m as int);
    }
    if m == 4 || m >= n - 1 {
        return false;
    }
    let mut i: usize = 4;
    while i < m
        invariant
            n == s@.len(),
            4 <= i <= m <= n,
            forall|j: int| 4 <= j < i ==> is_method_char(s@[j]),
        decreases m - i,
    {
        let c = s.get_char(i);
        let ok = ('a' <= c && c <= 'z') || ('0' <= c && c <= '9');
        if !ok {
            assert(!is_method_char(s@[i as int]));
            return false;
        }
        i += 1;
    }
    let mut i: usize = m + 1;
    while i < n
        invariant
            n == s@.len(),
            m + 1 <= i <= n,
            forall|j: int| m < j < i ==> is_id_char(s@[j]),
        decreases n - i,
    {
        let c = s.get_char(i);
        let ok = ('a' <= c && c <= 'z') || ('A' <= c && c <= 'Z') || ('0' <= c && c <= '9') || c
            == '.' || c == '-' || c == '_' || c == ':' || c == '%';
        if !ok {
            assert(!is_id_char(s@[i as int]));
            return false;
        }
        i += 1;
    }
    true
}

/// Decides whether a text is a valid DID-like identifier.
pub fn validate_did(s: &str) -> (r: bool)
    ensures
        r == is_valid_did(s@),
{
    let n = s.unicode_len();
    if n >= 4 && s.get_char(0) == 'd' && s.get_char(1) == 'i' && s.get_char(2) == 'd'
        && s.get_char(3) == ':' {
        // a text with the `did:` prefix holds a `':'`, so it is never a
        // valid unqualified identifier
        assert(!is_base58_char(':'));
        assert(!is_unqualified_did(s@));
        validate_qualified_did(s)
    } else {
        assert(!has_did_prefix(s@));
        validate_unqualified_did(s)
    }
}

/// Decides whether a text is a valid ledger object identifier.
pub fn validate_object_id(s: &str) -> (r: bool)
    ensures
        r == is_valid_object_id(s@),
{
    let n = s.unicode_len();
    if n == 0 {
        return false;
    }
    let mut i: usize = 0;
    while i < n
        invariant
            n == s@.len(),
            i <= n,
            forall|j: int| 0 <= j < i ==> is_object_id_char(s@[j]),
        decreases n - i,
    {
        let c = s.get_char(i);
        let ok = ('a' <= c && c <= 'z') || ('A' <= c && c <= 'Z') || ('0' <= c && c <= '9') || c
            == '.' || c == '-' || c == '_' || c == ':';
        if !ok {
            assert(!is_object_id_char(s@[i as int]));
            return false;
        }
        i += 1;
    }
    true
}

/// Decides whether a text is a non-empty decimal number string.
pub fn validate_decimal(s: &str) -> (r: bool)
    ensures
        r == is_decimal_text(s@),
{
    let n = s.unicode_len();
    if n == 0 {
        return false;
    }
    let mut i: usize = 0;
    while i < n
        invariant
            n == s@.len(),
            i <= n,
            forall|j: int| 0 <= j < i ==> is_dec_char(s@[j]),
        decreases n - i,
    {
        let c = s.get_char(i);
        if !('0' <= c && c <= '9') {
            assert(!is_dec_char(s@[i as int]));
            return false;
        }
        i += 1;
    }
    true
}

} // verus!
