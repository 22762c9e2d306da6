//! Authentication primitives: API key generation and hashing, and the
//! HMAC-SHA256 signature that guards webhook payloads.

use crate::ids::all_id_chars;
use crate::ids::random_id;
use crate::text::chars_of;
use crate::text::decimal;
use crate::text::hex_lower;
use crate::text::is_decimal_char;
use crate::text::lemma_decimal;
use crate::text::lemma_hex_lower_injective;
use crate::text::lemma_hex_lower_len;
use crate::text::lemma_utf8_injective;
use crate::text::push_char;
use crate::text::push_decimal;
use crate::text::push_hex_lower;
use crate::text::string_of;
use hmac::Hmac;
use hmac::Mac;
use sha2::Digest;
use sha2::Sha256;
use subtle::ConstantTimeEq;
use vstd::prelude::*;
use vstd::string::StringExecFns;
use vstd::utf8::encode_utf8;

verus! {

/// The prefix of a publisher's raw API key.
pub const PUBLISHER_PREFIX: &'static str = "hld_pub_";

/// The prefix of a subscriber's raw API key.
pub const SUBSCRIBER_PREFIX: &'static str = "hld_sub_";

/// How many random characters follow the prefix of a raw API key.
pub const KEY_RANDOM_LEN: usize = 24;

/// How many leading characters of a raw API key are kept for display.
pub const KEY_PREFIX_LEN: usize = 12;

/// The SHA-256 digest of a byte string.
pub uninterp spec fn sha256_digest(data: Seq<u8>) -> Seq<u8>;

/// The HMAC-SHA256 tag of `data` under `key`.
pub uninterp spec fn hmac_sha256_tag(key: Seq<u8>, data: Seq<u8>) -> Seq<u8>;

/// Trusted: `sha2::Sha256::digest`, the SHA-256 hash of `data`. The contract
/// names the digest and states its length, 32 bytes.
#[verifier::external_body]
fn sha256(data: &[u8]) -> (digest: Vec<u8>)
    ensures
        digest@ == sha256_digest(data@),
        digest@.len() == 32,
{
    Sha256::digest(data).to_vec()
}

/// Trusted: `hmac::Hmac::<Sha256>`, keyed with `key` by `new_from_slice`
/// (which takes a key of any length), fed `data` by `update` and closed by
/// `finalize`. The contract names the tag and states its length, 32 bytes.
#[verifier::external_body]
fn hmac_sha256(key: &[u8], data: &[u8]) -> (tag: Vec<u8>)
    ensures
        tag@ == hmac_sha256_tag(key@, data@),
        tag@.len() == 32,
{
    let mut mac = Hmac::<Sha256>::new_from_slice(key).expect("any key length is accepted");
    mac.update(data);
    mac.finalize().into_bytes().to_vec()
}

/// Trusted: `subtle::ConstantTimeEq::ct_eq` on byte slices. It answers
/// whether the two slices are equal; slices of different lengths are unequal,
/// and slices of one length are compared without stopping at the first
/// difference.
#[verifier::external_body]
fn constant_time_eq(a: &[u8], b: &[u8]) -> (same: bool)
    ensures
        same == (a@ == b@),
{
    a.ct_eq(b).into()
}

/// The stored hash of a raw API key: the SHA-256 digest of its UTF-8 bytes in
/// lower-case hexadecimal.
pub open spec fn api_key_hash(raw: Seq<char>) -> Seq<char> {
    hex_lower(sha256_digest(encode_utf8(raw)))
}

/// The text that a signature covers: the timestamp in decimal, a dot, the
/// body.
pub open spec fn signed_text(timestamp: int, body: Seq<char>) -> Seq<char> {
    decimal(timestamp) + seq!['.'] + body
}

/// What every signature begins with.
pub open spec fn signature_scheme() -> Seq<char> {
    seq!['s', 'h', 'a', '2', '5', '6', '=']
}

/// The signature of a payload: `sha256=` and, in lower-case hexadecimal, the
/// HMAC-SHA256 tag of the signed text under the secret.
pub open spec fn signature(secret: Seq<char>, timestamp: int, body: Seq<char>) -> Seq<char> {
    signature_scheme() + hex_lower(
        hmac_sha256_tag(encode_utf8(secret), encode_utf8(signed_text(timestamp, body))),
    )
}

/// The hash under which a raw API key is stored and looked up: 64 hexadecimal
/// characters.
pub fn hash_api_key(raw: &str) -> (hash: String)
    ensures
        hash@ == api_key_hash(raw@),
        hash@.len() == 64,
{
    let digest = sha256(raw.as_bytes());
    let mut hash = String::new();
    push_hex_lower(&mut hash, digest.as_slice());
    proof {
        lemma_hex_lower_len(digest@);
    }
    hash
}

/// A fresh API key: the raw key, its hash, and its visible prefix.
///
/// The raw key is `prefix` followed by 24 random identifier characters; the
/// visible prefix is the first 12 characters of the raw key (all of it, if it
/// is shorter).
pub fn generate_api_key(prefix: &str) -> (key: (String, String, String))
    ensures
        key.0@.len() == prefix@.len() + KEY_RANDOM_LEN,
        key.0@.subrange(0, prefix@.len() as int) == prefix@,
        all_id_chars(key.0@.subrange(prefix@.len() as int, key.0@.len() as int)),
        key.1@ == api_key_hash(key.0@),
        key.1@.len() == 64,
        key.2@ == key.0@.take(
            if key.0@.len() < KEY_PREFIX_LEN {
                key.0@.len() as int
            } else {
                KEY_PREFIX_LEN as int
            },
        ),
{
    let random = random_id(KEY_RANDOM_LEN);
    let mut raw = String::from_str(prefix);
    raw.append(random.as_str());
    assert(raw@.subrange(0, prefix@.len() as int) == prefix@);
    assert(raw@.subrange(prefix@.len() as int, raw@.len() as int) == random@);
    let hash = hash_api_key(raw.as_str());
    let chars = chars_of(raw.as_str());
    let shown: usize = if chars.len() < KEY_PREFIX_LEN {
        chars.len()
    } else {
        KEY_PREFIX_LEN
    };
    let key_prefix = string_of(&chars, 0, shown);
    (raw, hash, key_prefix)
}

/// Signs a payload: see [`signature`].
pub fn sign_payload(secret: &str, timestamp: i64, body: &str) -> (sig: String)
    ensures
        sig@ == signature(secret@, timestamp as int, body@),
        sig@.len() == 71,
{
    let mut data = String::new();
    push_decimal(&mut data, timestamp);
    push_char(&mut data, '.');
    data.append(body);
    assert(data@ == signed_text(timestamp as int, body@));
    let tag = hmac_sha256(secret.as_bytes(), data.as_str().as_bytes());
    let mut sig = String::from_str("sha256=");
    proof {
        reveal_strlit("sha256=");
        lemma_hex_lower_len(tag@);
        assert("sha256="@ == signature_scheme());
    }
    push_hex_lower(&mut sig, tag.as_slice());
    sig
}

/// Whether `provided` is the signature of the payload under `secret`.
///
/// The expected signature is computed and compared with `provided` by
/// `subtle`'s constant-time comparison.
pub fn verify_signature(secret: &str, timestamp: i64, body: &str, provided: &str) -> (valid: bool)
    ensures
        valid == (provided@ == signature(secret@, timestamp as int, body@)),
{
    let expected = sign_payload(secret, timestamp, body);
    proof {
        lemma_utf8_injective(expected@, provided@);
    }
    constant_time_eq(expected.as_str().as_bytes(), provided.as_bytes())
}

/// What `verify_signature` answers.
pub open spec fn verifies(
    secret: Seq<char>,
    timestamp: int,
    body: Seq<char>,
    provided: Seq<char>,
) -> bool {
    provided == signature(secret, timestamp, body)
}

/// A signature verifies against the inputs it was made from.
pub proof fn law_signature_round_trip(secret: Seq<char>, timestamp: int, body: Seq<char>)
    ensures
        verifies(secret, timestamp, body, signature(secret, timestamp, body)),
{
}

/// A signature that was altered in any way is rejected.
pub proof fn law_altered_signature_is_rejected(
    secret: Seq<char>,
    timestamp: int,
    body: Seq<char>,
    altered: Seq<char>,
)
    requires
        altered != signature(secret, timestamp, body),
    ensures
        !verifies(secret, timestamp, body, altered),
{
}

/// The signed text tells timestamp and body apart: different timestamps or
/// bodies never give the same text to sign.
pub proof fn lemma_signed_text_injective(t1: int, b1: Seq<char>, t2: int, b2: Seq<char>)
    requires
        signed_text(t1, b1) == signed_text(t2, b2),
    ensures
        t1 == t2,
        b1 == b2,
{
    let d1 = decimal(t1);
    let d2 = decimal(t2);
    let s1 = signed_text(t1, b1);
    let s2 = signed_text(t2, b2);
    lemma_decimal(t1, t2);
    lemma_decimal(t2, t1);
    assert(s1[d1.len() as int] == '.');
    assert(s2[d2.len() as int] == '.');
    if d1.len() < d2.len() {
        assert(s2[d1.len() as int] == d2[d1.len() as int]);
        assert(is_decimal_char(d2[d1.len() as int]));
    } else if d2.len() < d1.len() {
        assert(s1[d2.len() as int] == d1[d2.len() as int]);
        assert(is_decimal_char(d1[d2.len() as int]));
    } else {
        assert(d1 =~= s1.subrange(0, d1.len() as int));
        assert(d2 =~= s2.subrange(0, d2.len() as int));
        assert(b1 =~= s1.subrange(d1.len() as int + 1, s1.len() as int));
        assert(b2 =~= s2.subrange(d2.len() as int + 1, s2.len() as int));
    }
}

/// Two different inputs to HMAC-SHA256, each a key and a message, have the
/// same tag.
pub open spec fn hmac_collision(key1: Seq<u8>, data1: Seq<u8>, key2: Seq<u8>, data2: Seq<u8>) -> bool {
    (key1 != key2 || data1 != data2) && hmac_sha256_tag(key1, data1) == hmac_sha256_tag(
        key2,
        data2,
    )
}

/// A signature is rejected once the secret, the timestamp or the body is
/// altered, unless HMAC-SHA256 itself fails: were the signature of one input
/// accepted for another, the two would be a collision of HMAC-SHA256.
pub proof fn law_altered_input_is_rejected(
    secret: Seq<char>,
    timestamp: int,
    body: Seq<char>,
    other_secret: Seq<char>,
    other_timestamp: int,
    other_body: Seq<char>,
)
    requires
        secret != other_secret || timestamp != other_timestamp || body != other_body,
    ensures
        verifies(other_secret, other_timestamp, other_body, signature(secret, timestamp, body))
            ==> hmac_collision(
            encode_utf8(secret),
            encode_utf8(signed_text(timestamp, body)),
            encode_utf8(other_secret),
            encode_utf8(signed_text(other_timestamp, other_body)),
        ),
{
    let tag = hmac_sha256_tag(encode_utf8(secret), encode_utf8(signed_text(timestamp, body)));
    let other_tag = hmac_sha256_tag(
        encode_utf8(other_secret),
        encode_utf8(signed_text(other_timestamp, other_body)),
    );
    if verifies(other_secret, other_timestamp, other_body, signature(secret, timestamp, body)) {
        let scheme = signature_scheme();
        assert(hex_lower(tag) =~= (scheme + hex_lower(tag)).subrange(
            scheme.len() as int,
            (scheme + hex_lower(tag)).len() as int,
        ));
        assert(hex_lower(other_tag) =~= (scheme + hex_lower(other_tag)).subrange(
            scheme.len() as int,
            (scheme + hex_lower(other_tag)).len() as int,
        ));
        lemma_hex_lower_injective(tag, other_tag);
        lemma_utf8_injective(secret, other_secret);
        lemma_utf8_injective(
            signed_text(timestamp, body),
            signed_text(other_timestamp, other_body),
        );
        if signed_text(timestamp, body) == signed_text(other_timestamp, other_body) {
            lemma_signed_text_injective(timestamp, body, other_timestamp, other_body);
        }
    }
}

} // verus!
