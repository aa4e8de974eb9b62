use vstd::prelude::*;
use rand::Rng;
use vstd::string::{StrSliceExecFns, StringExecFns};
use crate::text::string_of;

verus! {

#[verifier::external_type_specification]
#[verifier::external_body]
pub struct ExThreadRng(rand::rngs::ThreadRng);

/// Relies on `rand::thread_rng`: a handle on this thread's generator.
pub assume_specification[ rand::thread_rng ]() -> rand::rngs::ThreadRng;

/// Length of a temporary file name.
pub const TEMP_NAME_LEN: usize = 32;

/// A temporary file name: 32 characters, each of `a` to `y`.
pub open spec fn is_temp_name(s: Seq<char>) -> bool {
    &&& s.len() == TEMP_NAME_LEN
    &&& forall|i: int| 0 <= i < s.len() ==> 'a' <= #[trigger] s[i] && s[i] <= 'y'
}

/// Relies on `Rng::gen_range` over a half-open range of `char`: a character
/// in `lo..hi`, which must not be empty (else it panics).
#[verifier::external_body]
fn char_in_range(rng: &mut rand::rngs::ThreadRng, lo: char, hi: char) -> (c: char)
    requires
        lo < hi,
    ensures
        lo <= c && c < hi,
{
    rng.gen_range(lo..hi)
}

/// A fresh random name for a file that is still being written.
pub fn rand_str() -> (s: String)
    ensures
        is_temp_name(s@),
{
    let mut rng = rand::thread_rng();
    let mut letters: Vec<char> = Vec::new();
    let mut i: usize = 0;
    while i < TEMP_NAME_LEN
        invariant
            i <= TEMP_NAME_LEN,
            letters@.len() == i,
            forall|j: int| 0 <= j < i ==> 'a' <= #[trigger] letters@[j] && letters@[j] <= 'y',
        decreases TEMP_NAME_LEN - i,
    {
        let c = char_in_range(&mut rng, 'a', 'z');
        letters.push(c);
        i = i + 1;
    }
    string_of(letters.as_slice())
}

/// The position of the last `.` in `f`, or -1 where there is none.
pub open spec fn last_dot(f: Seq<char>) -> int
    decreases f.len(),
{
    if f.len() == 0 {
        -1
    } else if f.last() == '.' {
        f.len() - 1
    } else {
        last_dot(f.drop_last())
    }
}

/// What follows the last `.` of a file name; empty where there is no `.`.
pub open spec fn ext_token(f: Seq<char>) -> Seq<char> {
    if last_dot(f) < 0 {
        Seq::empty()
    } else {
        f.subrange(last_dot(f) + 1, f.len() as int)
    }
}

/// The extension as it is appended to a stored name: empty, or a dot and a
/// non-empty extension. A part without a file name has none.
pub open spec fn formatted_ext(filename: Option<Seq<char>>) -> Seq<char> {
    match filename {
        None => Seq::empty(),
        Some(f) => if ext_token(f).len() == 0 {
            Seq::empty()
        } else {
            seq!['.'] + ext_token(f)
        },
    }
}

proof fn lemma_no_dot(f: Seq<char>)
    requires
        forall|i: int| 0 <= i < f.len() ==> #[trigger] f[i] != '.',
    ensures
        last_dot(f) == -1,
    decreases f.len(),
{
    if f.len() > 0 {
        assert(f.last() == f[f.len() - 1]);
        lemma_no_dot(f.drop_last());
    }
}

proof fn lemma_dot_then_no_dot(stem: Seq<char>, e: Seq<char>)
    requires
        forall|i: int| 0 <= i < e.len() ==> #[trigger] e[i] != '.',
    ensures
        last_dot(stem + seq!['.'] + e) == stem.len(),
    decreases e.len(),
{
    let f = stem + seq!['.'] + e;
    if e.len() == 0 {
        assert(f.last() == '.');
    } else {
        assert(f.last() == e[e.len() - 1]);
        assert(f.drop_last() =~= stem + seq!['.'] + e.drop_last());
        lemma_dot_then_no_dot(stem, e.drop_last());
    }
}

/// A name with a `.` followed by a non-empty extension that holds no `.`
/// keeps that extension, with its dot; a name with no `.` keeps none.
pub proof fn lemma_formatted_ext(stem: Seq<char>, e: Seq<char>, bare: Seq<char>)
    requires
        e.len() > 0,
        forall|i: int| 0 <= i < e.len() ==> #[trigger] e[i] != '.',
        forall|i: int| 0 <= i < bare.len() ==> #[trigger] bare[i] != '.',
    ensures
        formatted_ext(Some(stem + seq!['.'] + e)) == seq!['.'] + e,
        formatted_ext(Some(bare)) == Seq::<char>::empty(),
{
    lemma_dot_then_no_dot(stem, e);
    lemma_no_dot(bare);
    let f = stem + seq!['.'] + e;
    assert(f.subrange(stem.len() + 1int, f.len() as int) =~= e);
}

/// The formatted extension of an uploaded file's original name.
pub fn file_extension(filename: Option<&str>) -> (r: String)
    ensures
        r@ == formatted_ext(crate::access::opt_view(filename)),
{
    let name = match filename {
        None => {
            return String::new();
        },
        Some(f) => f,
    };
    let len = name.unicode_len();
    let mut dot: usize = 0;
    let mut found = false;
    let mut i: usize = 0;
    while i < len
        invariant
            len == name@.len(),
            i <= len,
            found ==> dot < i && last_dot(name@.take(i as int)) == dot as int,
            !found ==> last_dot(name@.take(i as int)) == -1,
        decreases len - i,
    {
        assert(name@.take(i + 1).drop_last() =~= name@.take(i as int));
        if name.get_char(i) == '.' {
            dot = i;
            found = true;
        }
        i = i + 1;
    }
    assert(name@.take(len as int) =~= name@);
    if found && dot + 1 < len {
        let prefix = ".";
        proof {
            reveal_strlit(".");
        }
        prefix.to_owned().concat(name.substring_char(dot + 1, len))
    } else {
        String::new()
    }
}

} // verus!
