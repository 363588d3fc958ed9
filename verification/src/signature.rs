//! Signatures of deliveries.
//!
//! The sender signs the body of a request with HMAC-SHA1 under a shared
//! secret and puts `sha1=` and the hex digits of the tag in a header. This
//! module says when such a header value is authentic and checks it.

use crate::text::bytes_eq;
use vstd::prelude::*;
use vstd::slice::slice_subrange;

verus! {

/// The number of bytes in front of the hex digits of a signature.
pub const PREFIX_LEN: usize = 5;

/// The number of bytes of an HMAC-SHA1 tag.
pub const TAG_LEN: usize = 20;

/// The most bytes that a secret or a payload may have for a tag to exist:
/// SHA-1 counts its input, one key block included, in 64 bits.
pub const HMAC_INPUT_LIMIT: u64 = 0x1FFF_FFFF_FFFF_FFBF;

/// The bytes of `sha1=`.
pub open spec fn prefix() -> Seq<u8> {
    seq![0x73u8, 0x68u8, 0x61u8, 0x31u8, 0x3du8]
}

/// Whether `signature` starts with `sha1=`.
pub open spec fn has_prefix(signature: Seq<u8>) -> bool {
    signature.len() >= PREFIX_LEN && signature.subrange(0, PREFIX_LEN as int) == prefix()
}

/// The value of one hex digit, in either case.
pub open spec fn hex_value(digit: u8) -> Option<u8> {
    if 0x30 <= digit <= 0x39 {
        Some((digit - 0x30) as u8)
    } else if 0x61 <= digit <= 0x66 {
        Some((digit - 0x61 + 10) as u8)
    } else if 0x41 <= digit <= 0x46 {
        Some((digit - 0x41 + 10) as u8)
    } else {
        None
    }
}

/// Whether `text` is an even number of hex digits.
pub open spec fn is_hex(text: Seq<u8>) -> bool {
    &&& text.len() % 2 == 0
    &&& forall|i: int| 0 <= i < text.len() ==> hex_value(#[trigger] text[i]) is Some
}

/// The byte that two hex digits stand for.
pub open spec fn hex_byte(high: u8, low: u8) -> u8 {
    (hex_value(high).unwrap() * 16 + hex_value(low).unwrap()) as u8
}

/// The bytes that the hex digits of `text` stand for.
pub open spec fn hex_decoded(text: Seq<u8>) -> Seq<u8> {
    Seq::new((text.len() / 2) as nat, |i: int| hex_byte(text[2 * i], text[2 * i + 1]))
}

/// The lower-case hex digit of a value below 16.
pub open spec fn hex_digit(value: int) -> u8 {
    if value < 10 {
        (0x30 + value) as u8
    } else {
        (0x61 + value - 10) as u8
    }
}

/// The lower-case hex digits of `bytes`, two for each byte.
pub open spec fn hex_encoded(bytes: Seq<u8>) -> Seq<u8> {
    Seq::new(
        2 * bytes.len(),
        |i: int|
            if i % 2 == 0 {
                hex_digit(bytes[i / 2] as int / 16)
            } else {
                hex_digit(bytes[i / 2] as int % 16)
            },
    )
}

/// The HMAC-SHA1 tag of `message` under `key`, as RFC 2104 defines it.
pub uninterp spec fn hmac_sha1(key: Seq<u8>, message: Seq<u8>) -> Seq<u8>;

/// The tag that a signature claims: the bytes behind `sha1=`, if they are
/// hex digits.
pub open spec fn claimed_tag(signature: Seq<u8>) -> Option<Seq<u8>> {
    if has_prefix(signature) && is_hex(signature.skip(PREFIX_LEN as int)) {
        Some(hex_decoded(signature.skip(PREFIX_LEN as int)))
    } else {
        None
    }
}

/// Whether `tag` is the tag of `message` under `key`: twenty bytes, and the
/// very ones that HMAC-SHA1 gives.
pub open spec fn is_tag(tag: Seq<u8>, key: Seq<u8>, message: Seq<u8>) -> bool {
    tag.len() == TAG_LEN && tag == hmac_sha1(key, message)
}

/// Whether `signature` vouches for `payload` under `secret`: it claims the
/// very tag that HMAC-SHA1 gives the payload under the secret.
pub open spec fn authentic(secret: Seq<u8>, payload: Seq<u8>, signature: Seq<u8>) -> bool {
    &&& secret.len() <= HMAC_INPUT_LIMIT
    &&& payload.len() <= HMAC_INPUT_LIMIT
    &&& claimed_tag(signature) matches Some(tag)
    &&& is_tag(tag, secret, payload)
}

/// The signature that a sender holding `secret` puts on `payload`.
pub open spec fn signed(secret: Seq<u8>, payload: Seq<u8>) -> Seq<u8> {
    prefix() + hex_encoded(hmac_sha1(secret, payload))
}

/// Calls `hex::decode`. The hex crate decodes a text of even length made of
/// the digits `0-9`, `a-f` and `A-F`, two digits to the byte with the high
/// digit first, and fails on every other text.
#[verifier::external_body]
fn decode_hex(text: &[u8]) -> (bytes: Option<Vec<u8>>)
    ensures
        bytes is Some <==> is_hex(text@),
        bytes matches Some(b) ==> b@ == hex_decoded(text@),
{
    hex::decode(text).ok()
}

/// Calls `ring::hmac::verify` with an HMAC-SHA1 key made of `key`. ring
/// computes the tag of `message`, which has the twenty bytes of a SHA-1
/// digest, and compares it with `tag` in constant time; it succeeds when
/// the two are the same bytes. Beyond the input limit ring has no tag to
/// compare with.
#[verifier::external_body]
fn hmac_sha1_matches(key: &[u8], message: &[u8], tag: &[u8]) -> (same: bool)
    requires
        key@.len() <= HMAC_INPUT_LIMIT,
        message@.len() <= HMAC_INPUT_LIMIT,
    ensures
        same == (tag@.len() == TAG_LEN && tag@ == hmac_sha1(key@, message@)),
{
    let key = ring::hmac::Key::new(ring::hmac::HMAC_SHA1_FOR_LEGACY_USE_ONLY, key);
    ring::hmac::verify(&key, message, tag).is_ok()
}

/// Decodes the tag that `signature` claims.
pub fn decode_signature(signature: &[u8]) -> (tag: Option<Vec<u8>>)
    ensures
        tag is Some <==> claimed_tag(signature@) is Some,
        tag matches Some(t) ==> claimed_tag(signature@) == Some(t@),
{
    if signature.len() < PREFIX_LEN {
        return None;
    }
    let head = slice_subrange(signature, 0, PREFIX_LEN);
    let expected: [u8; 5] = [0x73, 0x68, 0x61, 0x31, 0x3d];
    assert(expected@ =~= prefix());
    if !bytes_eq(head, expected.as_slice()) {
        return None;
    }
    let digits = slice_subrange(signature, PREFIX_LEN, signature.len());
    assert(digits@ =~= signature@.skip(PREFIX_LEN as int));
    decode_hex(digits)
}

/// Checks `signature` against the HMAC-SHA1 tag of `payload` under `secret`.
pub fn verify_signature(secret: &[u8], payload: &[u8], signature: &[u8]) -> (ok: bool)
    ensures
        ok == authentic(secret@, payload@, signature@),
{
    if secret.len() as u64 > HMAC_INPUT_LIMIT || payload.len() as u64 > HMAC_INPUT_LIMIT {
        return false;
    }
    match decode_signature(signature) {
        Some(tag) => hmac_sha1_matches(secret, payload, tag.as_slice()),
        None => false,
    }
}

/// `prefix()` is the text `sha1=` in UTF-8.
pub proof fn lemma_prefix_spells_sha1()
    ensures
        prefix() == vstd::utf8::encode_utf8("sha1="@),
{
    reveal_strlit("sha1=");
    let text = "sha1="@;
    assert(vstd::utf8::is_ascii_chars(text)) by {
        assert forall|i: int| 0 <= i < text.len() implies '\0' <= #[trigger] text[i]
            <= '\u{7f}' by {
            assert(text[0] == 's' && text[1] == 'h' && text[2] == 'a' && text[3] == '1' && text[4]
                == '=');
        }
    }
    vstd::utf8::is_ascii_chars_encode_utf8(text);
    assert(prefix() =~= vstd::utf8::encode_utf8(text));
}

/// Decoding the hex digits of `bytes` gives `bytes` back.
pub proof fn lemma_hex_round_trip(bytes: Seq<u8>)
    ensures
        is_hex(hex_encoded(bytes)),
        hex_decoded(hex_encoded(bytes)) == bytes,
{
    let text = hex_encoded(bytes);
    assert forall|i: int| 0 <= i < text.len() implies hex_value(#[trigger] text[i]) is Some by {
        let b = bytes[i / 2] as int;
        assert(0 <= b / 16 < 16 && 0 <= b % 16 < 16);
    }
    assert forall|i: int| 0 <= i < bytes.len() implies hex_decoded(text)[i] == bytes[i] by {
        let b = bytes[i] as int;
        assert((2 * i) / 2 == i && (2 * i) % 2 == 0);
        assert((2 * i + 1) / 2 == i && (2 * i + 1) % 2 == 1);
        assert(0 <= b / 16 < 16 && 0 <= b % 16 < 16);
        assert(hex_value(hex_digit(b / 16)) == Some((b / 16) as u8));
        assert(hex_value(hex_digit(b % 16)) == Some((b % 16) as u8));
        assert((b / 16) * 16 + b % 16 == b);
    }
    assert(hex_decoded(text) =~= bytes);
}

/// The signature that the sender computes is authentic: the tag of the
/// payload, in hex behind `sha1=`, passes the check. (That the tag has its
/// twenty bytes is known of every tag that was computed.)
pub proof fn lemma_signed_is_authentic(secret: Seq<u8>, payload: Seq<u8>)
    requires
        secret.len() <= HMAC_INPUT_LIMIT,
        payload.len() <= HMAC_INPUT_LIMIT,
    ensures
        hmac_sha1(secret, payload).len() == TAG_LEN ==> authentic(
            secret,
            payload,
            signed(secret, payload),
        ),
{
    let tag = hmac_sha1(secret, payload);
    let signature = signed(secret, payload);
    lemma_hex_round_trip(tag);
    assert(signature.subrange(0, PREFIX_LEN as int) =~= prefix());
    assert(signature.skip(PREFIX_LEN as int) =~= hex_encoded(tag));
}

/// An authentic signature is `sha1=` and forty hex digits, no more and no
/// less: neither `sha1=` alone nor `sha1=00` vouches for anything.
pub proof fn lemma_authentic_has_forty_digits(
    secret: Seq<u8>,
    payload: Seq<u8>,
    signature: Seq<u8>,
)
    requires
        authentic(secret, payload, signature),
    ensures
        signature.len() == PREFIX_LEN + 2 * TAG_LEN,
        claimed_tag(signature).unwrap().len() == TAG_LEN,
{
    let digits = signature.skip(PREFIX_LEN as int);
    assert(hex_decoded(digits).len() == digits.len() / 2);
}

/// A signature with one byte changed is no longer authentic, unless the
/// change only turns a hex digit into the same digit in the other case.
pub proof fn lemma_tampered_is_rejected(
    secret: Seq<u8>,
    payload: Seq<u8>,
    signature: Seq<u8>,
    tampered: Seq<u8>,
    at: int,
)
    requires
        authentic(secret, payload, signature),
        tampered.len() == signature.len(),
        0 <= at < signature.len(),
        forall|i: int| 0 <= i < signature.len() && i != at ==> tampered[i] == signature[i],
        tampered[at] != signature[at],
        at >= PREFIX_LEN ==> hex_value(tampered[at]) != hex_value(signature[at]),
    ensures
        !authentic(secret, payload, tampered),
{
    if at < PREFIX_LEN {
        assert(signature.subrange(0, PREFIX_LEN as int)[at] == signature[at]);
        assert(tampered.subrange(0, PREFIX_LEN as int)[at] == tampered[at]);
    } else {
        let old_digits = signature.skip(PREFIX_LEN as int);
        let new_digits = tampered.skip(PREFIX_LEN as int);
        let k = at - PREFIX_LEN;
        assert(old_digits[k] == signature[at]);
        assert(new_digits[k] == tampered[at]);
        assert(hex_value(old_digits[k]) is Some);
        if is_hex(new_digits) {
            lemma_digit_decides_byte(old_digits, new_digits, k);
        }
    }
}

/// Two hex texts that differ in the value of one digit, and in nothing
/// else, stand for different bytes.
proof fn lemma_digit_decides_byte(a: Seq<u8>, b: Seq<u8>, k: int)
    requires
        is_hex(a),
        is_hex(b),
        a.len() == b.len(),
        0 <= k < a.len(),
        forall|i: int| 0 <= i < a.len() && i != k ==> a[i] == b[i],
        hex_value(a[k]) != hex_value(b[k]),
    ensures
        hex_decoded(a) != hex_decoded(b),
{
    let i = k / 2;
    assert(0 <= i < a.len() / 2);
    assert(hex_value(a[2 * i]) is Some && hex_value(a[2 * i + 1]) is Some);
    assert(hex_value(b[2 * i]) is Some && hex_value(b[2 * i + 1]) is Some);
    assert(hex_decoded(a)[i] == hex_byte(a[2 * i], a[2 * i + 1]));
    assert(hex_decoded(b)[i] == hex_byte(b[2 * i], b[2 * i + 1]));
    if k == 2 * i {
        assert(a[2 * i + 1] == b[2 * i + 1]);
    } else {
        assert(k == 2 * i + 1);
        assert(a[2 * i] == b[2 * i]);
    }
    assert(hex_decoded(a)[i] != hex_decoded(b)[i]);
}

} // verus!
