use vstd::prelude::*;
use vstd::string::StringExecFns;
use crate::access::{code_allows, access_allows, opt_view};
use vstd::string::StrSliceExecFns;

verus! {

/// The directory, relative to the working directory, that holds every file.
pub const UPLOAD_PATH: &'static str = "static";

/// The path of a file named `name` in the storage directory.
pub open spec fn storage_path(name: Seq<char>) -> Seq<char> {
    seq!['s', 't', 'a', 't', 'i', 'c', '/'] + name
}

/// The storage path of a file name.
pub fn path_in_storage(name: &str) -> (r: String)
    ensures
        r@ == storage_path(name@),
{
    let dir = "static/";
    proof {
        reveal_strlit("static/");
    }
    dir.to_owned().concat(name)
}

/// An ASCII letter or digit.
pub open spec fn is_alnum(c: char) -> bool {
    ('0' <= c && c <= '9') || ('a' <= c && c <= 'z') || ('A' <= c && c <= 'Z')
}

pub open spec fn all_alnum(s: Seq<char>) -> bool {
    forall|i: int| 0 <= i < s.len() ==> is_alnum(#[trigger] s[i])
}

/// Whether every character of `s` is an ASCII letter or digit.
pub fn is_alphanumeric(s: &str) -> (r: bool)
    ensures
        r == all_alnum(s@),
{
    let len = s.unicode_len();
    let mut i: usize = 0;
    while i < len
        invariant
            len == s@.len(),
            i <= len,
            forall|j: int| 0 <= j < i ==> is_alnum(#[trigger] s@[j]),
        decreases len - i,
    {
        let c = s.get_char(i);
        if !(('0' <= c && c <= '9') || ('a' <= c && c <= 'z') || ('A' <= c && c <= 'Z')) {
            return false;
        }
        i = i + 1;
    }
    true
}

/// The path that a delete request for `hash` and `ext` names.
pub open spec fn delete_path(hash: Seq<char>, ext: Seq<char>) -> Seq<char> {
    storage_path(hash + seq!['.'] + ext)
}

/// Whether a delete request may touch the file system at all.
pub open spec fn delete_permitted(
    configured: Seq<char>,
    supplied: Option<Seq<char>>,
    hash: Seq<char>,
    ext: Seq<char>,
) -> bool {
    access_allows(configured, supplied) && all_alnum(hash) && all_alnum(ext)
}

/// Decides a delete request: the path of the file to remove, or `None` where
/// the access code denies it or either component holds anything but letters and
/// digits (so `.`, `/` and `\` never reach a path).
pub fn delete_target(configured: &str, supplied: Option<&str>, hash: &str, ext: &str) -> (r: Option<
    String,
>)
    ensures
        r is Some <==> delete_permitted(configured@, opt_view(supplied), hash@, ext@),
        r is Some ==> r->0@ == delete_path(hash@, ext@),
{
    if !code_allows(configured, supplied) || !is_alphanumeric(hash) || !is_alphanumeric(ext) {
        return None;
    }
    let dot = ".";
    proof {
        reveal_strlit(".");
    }
    let name = hash.to_owned().concat(dot).concat(ext);
    Some(path_in_storage(name.as_str()))
}

/// The body of the reply to a delete request.
pub fn delete_reply(removed: bool) -> (r: String)
    ensures
        removed ==> r@ == seq!['t', 'r', 'u', 'e'],
        !removed ==> r@ == seq!['f', 'a', 'l', 's', 'e'],
{
    if removed {
        let t = "true";
        proof {
            reveal_strlit("true");
        }
        t.to_owned()
    } else {
        let f = "false";
        proof {
            reveal_strlit("false");
        }
        f.to_owned()
    }
}

/// A path that a delete request can produce stays in the storage directory:
/// after the directory's prefix it holds no `/`, and exactly one `.`, so it is
/// neither `.` nor `..` and names no subdirectory.
pub proof fn lemma_delete_path_confined(hash: Seq<char>, ext: Seq<char>)
    requires
        all_alnum(hash),
        all_alnum(ext),
    ensures
        delete_path(hash, ext) == storage_path(hash + seq!['.'] + ext),
        forall|i: int|
            0 <= i < (hash + seq!['.'] + ext).len() ==> #[trigger] (hash + seq!['.']
                + ext)[i] != '/',
        forall|i: int|
            0 <= i < (hash + seq!['.'] + ext).len() && (hash + seq!['.'] + ext)[i] == '.'
                ==> i == hash.len(),
{
    let n = hash + seq!['.'] + ext;
    assert forall|i: int| 0 <= i < n.len() implies #[trigger] n[i] != '/' && (n[i] == '.' ==> i
        == hash.len()) by {
        if i < hash.len() {
            assert(n[i] == hash[i]);
            assert(is_alnum(hash[i]));
        } else if i > hash.len() {
            assert(n[i] == ext[i - hash.len() - 1]);
            assert(is_alnum(ext[i - hash.len() - 1]));
        }
    }
}

} // verus!
