use vstd::prelude::*;
use sha2::Digest;
use vstd::string::StringExecFns;

verus! {

/// A running SHA-512/224 state. The sha2 type is an alias over type-level
/// numbers that Verus cannot declare, so it is held here, out of Verus's view,
/// and described by `absorbed`.
#[verifier::external_body]
pub struct HashState {
    inner: sha2::Sha512_224,
}

/// The SHA-512/224 digest of a byte sequence.
pub uninterp spec fn sha512_224_of(b: Seq<u8>) -> Seq<u8>;

/// The bytes that a running SHA-512/224 state has absorbed so far.
pub uninterp spec fn absorbed(h: HashState) -> Seq<u8>;

/// Relies on `Sha512_224::default`: a fresh state has absorbed nothing.
#[verifier::external_body]
pub(crate) fn hasher_new() -> (h: HashState)
    ensures
        absorbed(h) == Seq::<u8>::empty(),
{
    HashState { inner: sha2::Sha512_224::default() }
}

/// Relies on `Digest::update`: the state absorbs `b` after what it held.
#[verifier::external_body]
pub(crate) fn hasher_update(h: &mut HashState, b: &[u8])
    ensures
        absorbed(*final(h)) == absorbed(*old(h)) + b@,
{
    Digest::update(&mut h.inner, b)
}

/// Relies on `Digest::finalize`: the 28-byte digest of all that was absorbed.
#[verifier::external_body]
pub(crate) fn hasher_finalize(h: HashState) -> (d: Vec<u8>)
    ensures
        d@ == sha512_224_of(absorbed(h)),
        d@.len() == 28,
{
    h.inner.finalize().to_vec()
}

/// The character that URL-safe base64 writes for a six-bit value.
pub open spec fn b64url_digit(v: int) -> char {
    if v < 26 {
        (65 + v) as u8 as char
    } else if v < 52 {
        (97 + v - 26) as u8 as char
    } else if v < 62 {
        (48 + v - 52) as u8 as char
    } else if v == 62 {
        '-'
    } else {
        '_'
    }
}

/// URL-safe base64 without padding: each group of three bytes becomes four
/// characters, and a final group of one or two bytes becomes two or three.
pub open spec fn b64url_of(b: Seq<u8>) -> Seq<char>
    decreases b.len(),
{
    let b0 = b[0] as int;
    let b1 = b[1] as int;
    let b2 = b[2] as int;
    if b.len() == 0 {
        Seq::empty()
    } else if b.len() == 1 {
        seq![b64url_digit(b0 / 4), b64url_digit((b0 % 4) * 16)]
    } else if b.len() == 2 {
        seq![
            b64url_digit(b0 / 4),
            b64url_digit((b0 % 4) * 16 + b1 / 16),
            b64url_digit((b1 % 16) * 4),
        ]
    } else {
        seq![
            b64url_digit(b0 / 4),
            b64url_digit((b0 % 4) * 16 + b1 / 16),
            b64url_digit((b1 % 16) * 4 + b2 / 64),
            b64url_digit(b2 % 64),
        ] + b64url_of(b.subrange(3, b.len() as int))
    }
}

/// Unpadded base64 writes `(4n + 2) / 3` characters for `n` bytes, so a
/// 28-byte digest becomes a 38-character name.
pub proof fn lemma_b64url_len(b: Seq<u8>)
    ensures
        b64url_of(b).len() == (4 * b.len() + 2) / 3,
        b.len() == 28 ==> b64url_of(b).len() == 38,
    decreases b.len(),
{
    if b.len() >= 3 {
        lemma_b64url_len(b.subrange(3, b.len() as int));
    }
}

/// Relies on `base64_url::encode`: URL-safe base64 of the bytes, unpadded.
#[verifier::external_body]
fn b64url_encode(b: &[u8]) -> (r: String)
    ensures
        r@ == b64url_of(b@),
{
    base64_url::encode(b)
}

/// The published name of a file: the encoded digest followed by the formatted
/// extension (empty, or a dot and the extension).
pub fn final_name(digest: &[u8], ext: &str) -> (r: String)
    ensures
        r@ == b64url_of(digest@) + ext@,
{
    b64url_encode(digest).concat(ext)
}

} // verus!
