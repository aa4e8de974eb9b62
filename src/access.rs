use vstd::prelude::*;
use vstd::utf8::encode_utf8_decode_utf8;

verus! {

/// The view of an optional string.
pub open spec fn opt_view(s: Option<&str>) -> Option<Seq<char>> {
    match s {
        Some(t) => Some(t@),
        None => None,
    }
}

/// The access rule: an empty configured code lets every request through;
/// otherwise the request must carry exactly that code.
pub open spec fn access_allows(configured: Seq<char>, supplied: Option<Seq<char>>) -> bool {
    configured.len() == 0 || supplied == Some(configured)
}

proof fn lemma_fold_difference(d: u8, x: u8, y: u8)
    ensures
        ((d | (x ^ y)) == 0u8) == (d == 0u8 && x == y),
{
    assert(((d | (x ^ y)) == 0u8) == (d == 0u8 && x == y)) by (bit_vector);
}

/// Compares two byte strings of any length in time that depends on their
/// lengths only, not on where they first differ.
fn same_bytes(a: &[u8], b: &[u8]) -> (r: bool)
    ensures
        r == (a@ == b@),
{
    if a.len() != b.len() {
        return false;
    }
    let mut diff: u8 = 0;
    let mut i: usize = 0;
    while i < a.len()
        invariant
            a@.len() == b@.len(),
            i <= a@.len(),
            (diff == 0) == (a@.take(i as int) =~= b@.take(i as int)),
        decreases a@.len() - i,
    {
        proof {
            lemma_fold_difference(diff, a@[i as int], b@[i as int]);
            assert(a@.take(i + 1) == a@.take(i as int).push(a@[i as int]));
            assert(b@.take(i + 1) == b@.take(i as int).push(b@[i as int]));
            if a@.take(i + 1) =~= b@.take(i + 1) {
                assert(a@.take(i + 1)[i as int] == b@.take(i + 1)[i as int]);
                assert(a@.take(i as int) =~= b@.take(i as int));
            }
        }
        diff = diff | (a[i] ^ b[i]);
        i = i + 1;
    }
    assert(a@.take(a@.len() as int) =~= a@);
    assert(b@.take(b@.len() as int) =~= b@);
    diff == 0
}

/// Decides whether a request that carries `supplied` is let through by the access code set up
/// with `configured`.
pub fn code_allows(configured: &str, supplied: Option<&str>) -> (r: bool)
    ensures
        r == access_allows(configured@, opt_view(supplied)),
{
    if configured.is_empty() {
        return true;
    }
    match supplied {
        None => false,
        Some(s) => {
            let r = same_bytes(configured.as_bytes(), s.as_bytes());
            proof {
                encode_utf8_decode_utf8(configured@);
                encode_utf8_decode_utf8(s@);
            }
            r
        },
    }
}

} // verus!
