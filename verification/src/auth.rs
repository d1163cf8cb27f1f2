//! The authenticator: decides whether an inbound delivery's raw bytes were
//! signed with the configured shared secret.
//!
//! A delivery carries a hex-encoded HMAC-SHA1 tag in a header. Verification
//! decodes the hex, computes the expected tag over the raw bytes, and compares
//! the two in constant time. An absent header is rejected before any tag is
//! computed; a header that is not fixed-length hex is rejected as malformed.

use vstd::prelude::*;

use crate::counters::{bump, bump_spec, Counters};

verus! {

/// The tag that HMAC-SHA1 computes from a key and a message. Named, never
/// written out: no statement of this crate pins its bytes to given inputs.
pub uninterp spec fn hmac_sha1(key: Seq<u8>, msg: Seq<u8>) -> Seq<u8>;

/// HMAC-SHA1 refuses inputs near SHA-1's length limit of `2^61` bytes;
/// callers stay far below it.
pub const MAX_MAC_INPUT: u64 = 0x1000000000000000;

/// A signature header is the hex encoding of a 20-byte HMAC-SHA1 tag.
pub const SIG_HEX_LEN: usize = 40;

/// The length of an HMAC-SHA1 tag in bytes.
pub const TAG_LEN: usize = 20;

/// How one delivery fared against the authenticator.
#[derive(Clone, Copy, PartialEq, Eq, Structural, Debug)]
pub enum AuthOutcome {
    /// The decoded signature matches the tag computed over the raw bytes.
    Verified,
    /// No signature accompanied the delivery.
    MissingSignature,
    /// The signature was not fixed-length hex.
    MalformedSignature,
    /// The decoded signature differs from the computed tag.
    Mismatch,
}

pub open spec fn is_hex_digit(c: char) -> bool {
    (48 <= c as u32 && c as u32 <= 57) || (97 <= c as u32 && c as u32 <= 102) || (65 <= c as u32
        && c as u32 <= 70)
}

/// The value of one hex digit.
pub open spec fn hex_val(c: char) -> u8
    recommends
        is_hex_digit(c),
{
    if 48 <= c as u32 && c as u32 <= 57 {
        (c as u32 - 48) as u8
    } else if 97 <= c as u32 && c as u32 <= 102 {
        (c as u32 - 87) as u8
    } else {
        (c as u32 - 55) as u8
    }
}

/// A well-formed signature header: exactly forty hex digits.
pub open spec fn is_hex_signature(s: Seq<char>) -> bool {
    &&& s.len() == SIG_HEX_LEN
    &&& forall|i: int| 0 <= i < s.len() ==> is_hex_digit(s[i])
}

/// The bytes a hex string stands for, two digits to a byte, high digit first.
pub open spec fn hex_decoded(s: Seq<char>) -> Seq<u8> {
    Seq::new((s.len() / 2) as nat, |i: int| (hex_val(s[2 * i]) * 16 + hex_val(s[2 * i + 1])) as u8)
}

/// The lower-case hex digit standing for a value below sixteen.
pub open spec fn hex_char_of(v: u8) -> char
    recommends
        v < 16,
{
    if v < 10 {
        ((48 + v) as u32) as char
    } else {
        ((87 + v) as u32) as char
    }
}

/// The hex encoding of a byte sequence: two lower-case digits per byte, high
/// digit first.
pub open spec fn hex_encoded(b: Seq<u8>) -> Seq<char> {
    Seq::new(
        b.len() * 2,
        |i: int|
            if i % 2 == 0 {
                hex_char_of(b[i / 2] / 16)
            } else {
                hex_char_of(b[i / 2] % 16)
            },
    )
}

proof fn lemma_hex_char_val(v: u8)
    requires
        v < 16,
    ensures
        is_hex_digit(hex_char_of(v)),
        hex_val(hex_char_of(v)) == v,
{
    if v < 10 {
        assert((((48 + v) as u32) as char) as u32 == 48 + v);
    } else {
        assert((((87 + v) as u32) as char) as u32 == 87 + v);
    }
}

/// Law: hex encoding is the inverse of hex decoding. Encoding any bytes
/// yields twice as many hex digits, and decoding them gives the bytes back.
pub proof fn lemma_hex_round_trip(b: Seq<u8>)
    ensures
        hex_encoded(b).len() == b.len() * 2,
        forall|i: int| 0 <= i < hex_encoded(b).len() ==> is_hex_digit(hex_encoded(b)[i]),
        hex_decoded(hex_encoded(b)) == b,
{
    assert forall|i: int| 0 <= i < hex_encoded(b).len() implies is_hex_digit(
        hex_encoded(b)[i],
    ) by {
        if i % 2 == 0 {
            lemma_hex_char_val(b[i / 2] / 16);
        } else {
            lemma_hex_char_val(b[i / 2] % 16);
        }
    }
    assert forall|i: int| 0 <= i < b.len() implies hex_decoded(hex_encoded(b))[i] == b[i] by {
        lemma_hex_char_val(b[i] / 16);
        lemma_hex_char_val(b[i] % 16);
        assert(hex_encoded(b)[2 * i] == hex_char_of(b[i] / 16));
        assert(hex_encoded(b)[2 * i + 1] == hex_char_of(b[i] % 16));
        assert((b[i] / 16) * 16 + b[i] % 16 == b[i]);
    }
    assert(hex_decoded(hex_encoded(b)) =~= b);
}

/// Law: a signature that is the hex encoding of a twenty-byte tag is
/// accepted exactly when that tag is the one the secret yields over the raw
/// bytes — genuine signatures verify, and any other tag is a mismatch, never
/// a malformed signature.
pub proof fn lemma_hex_signature_verdict(raw: Seq<u8>, tag: Seq<u8>, secret: Seq<u8>)
    requires
        tag.len() == TAG_LEN,
    ensures
        auth_verdict(raw, Some(hex_encoded(tag)), secret) == (if verify_ok(raw, tag, secret) {
            AuthOutcome::Verified
        } else {
            AuthOutcome::Mismatch
        }),
{
    lemma_hex_round_trip(tag);
    assert(is_hex_signature(hex_encoded(tag)));
}

/// Whether a claimed tag is the one the secret yields over the raw bytes.
pub open spec fn verify_ok(raw: Seq<u8>, tag: Seq<u8>, secret: Seq<u8>) -> bool {
    tag == hmac_sha1(secret, raw)
}

/// The outcome the authenticator owes for given raw bytes, signature header
/// and secret.
pub open spec fn auth_verdict(raw: Seq<u8>, sig: Option<Seq<char>>, secret: Seq<u8>) -> AuthOutcome {
    match sig {
        None => AuthOutcome::MissingSignature,
        Some(s) => if !is_hex_signature(s) {
            AuthOutcome::MalformedSignature
        } else if verify_ok(raw, hex_decoded(s), secret) {
            AuthOutcome::Verified
        } else {
            AuthOutcome::Mismatch
        },
    }
}

/// The view of an optional signature header.
pub open spec fn sig_view(sig: Option<&str>) -> Option<Seq<char>> {
    match sig {
        Some(s) => Some(s@),
        None => None,
    }
}

/// The counters the authenticator leaves behind: the one matching a rejection
/// reason is bumped, everything else untouched.
pub open spec fn counters_after_auth(c: Counters, r: AuthOutcome) -> Counters {
    Counters {
        sig_missing: if r is MissingSignature {
            bump_spec(c.sig_missing)
        } else {
            c.sig_missing
        },
        sig_malformed: if r is MalformedSignature {
            bump_spec(c.sig_malformed)
        } else {
            c.sig_malformed
        },
        sig_mismatch: if r is Mismatch {
            bump_spec(c.sig_mismatch)
        } else {
            c.sig_mismatch
        },
        ..c
    }
}

/// Relies on ring::hmac::sign with HMAC_SHA1_FOR_LEGACY_USE_ONLY: the tag is
/// a function of the key and message bytes alone, twenty bytes long.
#[verifier::external_body]
pub fn mac(secret: &Vec<u8>, msg: &Vec<u8>) -> (r: Vec<u8>)
    requires
        secret@.len() < MAX_MAC_INPUT,
        msg@.len() < MAX_MAC_INPUT,
    ensures
        r@ == hmac_sha1(secret@, msg@),
        r@.len() == TAG_LEN,
{
    let key = ring::hmac::Key::new(ring::hmac::HMAC_SHA1_FOR_LEGACY_USE_ONLY, secret.as_slice());
    ring::hmac::sign(&key, msg.as_slice()).as_ref().to_vec()
}

/// Relies on ring::hmac::verify with HMAC_SHA1_FOR_LEGACY_USE_ONLY: it
/// computes the HMAC-SHA1 tag of `msg` under `secret` and compares it with
/// `tag` in constant time, succeeding exactly when the two are equal.
#[verifier::external_body]
fn hmac_verify(secret: &Vec<u8>, msg: &Vec<u8>, tag: &Vec<u8>) -> (r: bool)
    requires
        secret@.len() < MAX_MAC_INPUT,
        msg@.len() < MAX_MAC_INPUT,
    ensures
        r <==> verify_ok(msg@, tag@, secret@),
{
    let key = ring::hmac::Key::new(ring::hmac::HMAC_SHA1_FOR_LEGACY_USE_ONLY, secret.as_slice());
    ring::hmac::verify(&key, msg.as_slice(), tag.as_slice()).is_ok()
}

/// The value of one hex digit, or nothing where the character is not one.
pub fn hex_digit_value(c: char) -> (r: Option<u8>)
    ensures
        r is Some <==> is_hex_digit(c),
        r matches Some(v) ==> v == hex_val(c),
{
    let u = c as u32;
    if 48 <= u && u <= 57 {
        Some((u - 48) as u8)
    } else if 97 <= u && u <= 102 {
        Some((u - 87) as u8)
    } else if 65 <= u && u <= 70 {
        Some((u - 55) as u8)
    } else {
        None
    }
}

/// Decode a signature header: forty hex digits give twenty bytes; anything
/// else is rejected, never a panic.
pub fn decode_signature(s: &str) -> (r: Option<Vec<u8>>)
    ensures
        r is Some <==> is_hex_signature(s@),
        r matches Some(v) ==> v@ == hex_decoded(s@),
{
    let n = s.unicode_len();
    if n != SIG_HEX_LEN {
        return None;
    }
    let mut out: Vec<u8> = Vec::new();
    let mut i: usize = 0;
    while i < SIG_HEX_LEN
        invariant
            s@.len() == SIG_HEX_LEN,
            i % 2 == 0,
            i <= SIG_HEX_LEN,
            out@.len() == i / 2,
            forall|j: int| 0 <= j < i ==> is_hex_digit(s@[j]),
            forall|k: int|
                0 <= k < i / 2 ==> out@[k] == (hex_val(s@[2 * k]) * 16 + hex_val(
                    s@[2 * k + 1],
                )) as u8,
        decreases SIG_HEX_LEN - i,
    {
        let hi = match hex_digit_value(s.get_char(i)) {
            Some(v) => v,
            None => {
                return None;
            },
        };
        let lo = match hex_digit_value(s.get_char(i + 1)) {
            Some(v) => v,
            None => {
                return None;
            },
        };
        out.push(hi * 16 + lo);
        i = i + 2;
    }
    proof {
        assert(out@ =~= hex_decoded(s@));
    }
    Some(out)
}

/// Decide whether the raw bytes of a delivery were signed with the shared
/// secret, and count a rejection under its reason. A missing header is
/// rejected before any tag is computed; ring performs the final comparison in
/// constant time.
pub fn authenticate(
    raw: &Vec<u8>,
    signature: Option<&str>,
    secret: &Vec<u8>,
    counters: &mut Counters,
) -> (r: AuthOutcome)
    requires
        raw@.len() < MAX_MAC_INPUT,
        secret@.len() < MAX_MAC_INPUT,
    ensures
        r == auth_verdict(raw@, sig_view(signature), secret@),
        *final(counters) == counters_after_auth(*old(counters), r),
{
    match signature {
        None => {
            counters.sig_missing = bump(counters.sig_missing);
            AuthOutcome::MissingSignature
        },
        Some(s) => {
            match decode_signature(s) {
                None => {
                    counters.sig_malformed = bump(counters.sig_malformed);
                    AuthOutcome::MalformedSignature
                },
                Some(tag) => {
                    if hmac_verify(secret, raw, &tag) {
                        AuthOutcome::Verified
                    } else {
                        counters.sig_mismatch = bump(counters.sig_mismatch);
                        AuthOutcome::Mismatch
                    }
                },
            }
        },
    }
}

/// Law: a tag computed over a payload with the configured secret verifies
/// against that payload and secret.
pub proof fn lemma_genuine_tag_verifies(raw: Seq<u8>, secret: Seq<u8>)
    ensures
        verify_ok(raw, hmac_sha1(secret, raw), secret),
{
}

/// Law: a tag computed with another secret is rejected whenever the two
/// secrets yield different tags over the payload. That distinct secrets never
/// collide is a cryptographic assumption, not a statement of this crate, so
/// the hypothesis stays explicit.
pub proof fn lemma_foreign_tag_rejected(raw: Seq<u8>, secret: Seq<u8>, other: Seq<u8>)
    requires
        hmac_sha1(other, raw) != hmac_sha1(secret, raw),
    ensures
        !verify_ok(raw, hmac_sha1(other, raw), secret),
{
}

} // verus!
