use vstd::prelude::*;
use crate::digest::{b64url_of, final_name, sha512_224_of};
use crate::access::{code_allows, access_allows, opt_view};
use crate::names::{file_extension, formatted_ext, is_temp_name, lemma_formatted_ext, rand_str};
use crate::sink::{accepted, recorded, StreamingSink, WriteStep};
use crate::storage::{all_alnum, delete_path, path_in_storage, storage_path};
use vstd::string::StrSliceExecFns;

verus! {

/// The name under which content is published: the encoded SHA-512/224 digest
/// of the bytes, then the formatted extension of the original file name.
pub open spec fn stored_name(content: Seq<u8>, filename: Option<Seq<char>>) -> Seq<char> {
    b64url_of(sha512_224_of(content)) + formatted_ext(filename)
}

/// The one form field whose content is stored.
pub open spec fn file_field() -> Seq<char> {
    seq!['f', 'i', 'l', 'e']
}

/// Whether a multipart field of this name is the file to store.
pub fn is_file_field(name: &str) -> (r: bool)
    ensures
        r == (name@ == file_field()),
{
    let r = name.unicode_len() == 4 && name.get_char(0) == 'f' && name.get_char(1) == 'i'
        && name.get_char(2) == 'l' && name.get_char(3) == 'e';
    proof {
        if r {
            assert(name@ =~= file_field());
        }
    }
    r
}

/// The renaming that publishes a finished upload.
pub struct Publication {
    /// Path of the temporary file.
    pub temp_path: String,
    /// Path of the published file.
    pub final_path: String,
    /// Name of the published file, which is the reply to the client.
    pub name: String,
}

/// One upload in progress: the temporary file it writes, the extension it
/// will keep, and the sink that hashes and places its bytes.
pub struct Upload {
    temp: String,
    ext: String,
    filename: Ghost<Option<Seq<char>>>,
    sink: StreamingSink,
}

impl Upload {
    /// The random name of the temporary file.
    pub closed spec fn temp_name(&self) -> Seq<char> {
        self.temp@
    }

    /// The original file name that the client gave, if any.
    pub closed spec fn filename(&self) -> Option<Seq<char>> {
        self.filename@
    }

    /// The state of the sink.
    pub closed spec fn sink(&self) -> StreamingSink {
        self.sink
    }

    pub closed spec fn wf(&self) -> bool {
        &&& self.sink.wf()
        &&& is_temp_name(self.temp@)
        &&& self.ext@ == formatted_ext(self.filename@)
    }

    /// Opens an upload of the file part whose original name is `filename`,
    /// where the access code lets the request through; `None` where it does not, and
    /// then no file is named, created or written.
    pub fn start(configured: &str, supplied: Option<&str>, filename: Option<&str>) -> (r: Option<
        Upload,
    >)
        ensures
            r is None <==> !access_allows(configured@, opt_view(supplied)),
            r is Some ==> {
                let u = r->0;
                &&& u.wf()
                &&& u.filename() == opt_view(filename)
                &&& u.sink().received() == Seq::<u8>::empty()
                &&& u.sink().cursor() == 0
                &&& u.sink().pending() == 0
            },
    {
        if !code_allows(configured, supplied) {
            return None;
        }
        Some(
            Upload {
                temp: rand_str(),
                ext: file_extension(filename),
                filename: Ghost(opt_view(filename)),
                sink: StreamingSink::new(),
            },
        )
    }

    /// The path of the temporary file to create.
    pub fn temp_path(&self) -> (r: String)
        ensures
            r@ == storage_path(self.temp_name()),
    {
        path_in_storage(self.temp.as_str())
    }

    /// Takes the next chunk of the file part (see `StreamingSink::accept`).
    pub fn accept_chunk(&mut self, chunk: &[u8]) -> (step: WriteStep)
        requires
            old(self).wf(),
            old(self).sink().pending() == 0,
            old(self).sink().received().len() + chunk@.len() <= u64::MAX,
        ensures
            final(self).wf(),
            final(self).temp_name() == old(self).temp_name(),
            final(self).filename() == old(self).filename(),
            accepted(old(self).sink(), final(self).sink(), chunk@, step),
    {
        self.sink.accept(chunk)
    }

    /// Learns how the last write went (see `StreamingSink::record_write`).
    pub fn record_write(&mut self, outcome: Option<usize>) -> (step: WriteStep)
        requires
            old(self).wf(),
        ensures
            final(self).wf(),
            final(self).temp_name() == old(self).temp_name(),
            final(self).filename() == old(self).filename(),
            recorded(old(self).sink(), final(self).sink(), outcome, step),
    {
        self.sink.record_write(outcome)
    }

    /// Ends the upload once every byte is in the temporary file: the file,
    /// which holds exactly the bytes received, is to be renamed to its
    /// content-addressed name.
    pub fn finish(self) -> (p: Publication)
        requires
            self.wf(),
            self.sink().pending() == 0,
        ensures
            p.name@ == stored_name(self.sink().received(), self.filename()),
            p.final_path@ == storage_path(p.name@),
            p.temp_path@ == storage_path(self.temp_name()),
            self.sink().written() == self.sink().received(),
    {
        let temp_path = path_in_storage(self.temp.as_str());
        let digest = self.sink.finish();
        let name = final_name(digest.as_slice(), self.ext.as_str());
        let final_path = path_in_storage(name.as_str());
        Publication { temp_path, final_path, name }
    }
}

/// Uploading the same bytes under the same original file name twice gives
/// the same published name.
pub proof fn lemma_name_deterministic(a: Upload, b: Upload)
    requires
        a.wf(),
        b.wf(),
        a.sink().received() == b.sink().received(),
        a.filename() == b.filename(),
    ensures
        stored_name(a.sink().received(), a.filename()) == stored_name(
            b.sink().received(),
            b.filename(),
        ),
{
}

/// The published name of bytes `b` uploaded as `stem.e` is the encoded
/// digest of `b`, a dot and `e`; uploaded under a name without a dot, it is
/// the encoded digest alone.
pub proof fn lemma_stored_name_shape(b: Seq<u8>, stem: Seq<char>, e: Seq<char>, bare: Seq<char>)
    requires
        e.len() > 0,
        forall|i: int| 0 <= i < e.len() ==> #[trigger] e[i] != '.',
        forall|i: int| 0 <= i < bare.len() ==> #[trigger] bare[i] != '.',
    ensures
        stored_name(b, Some(stem + seq!['.'] + e)) == b64url_of(sha512_224_of(b)) + seq!['.'] + e,
        stored_name(b, Some(bare)) == b64url_of(sha512_224_of(b)),
{
    lemma_formatted_ext(stem, e, bare);
    assert(b64url_of(sha512_224_of(b)) + (seq!['.'] + e) =~= b64url_of(sha512_224_of(b)) + seq![
        '.',
    ] + e);
    assert(b64url_of(sha512_224_of(b)) + Seq::<char>::empty() =~= b64url_of(sha512_224_of(b)));
}

/// A delete request for the digest part `h` and extension `e` of a published
/// name names exactly the published file, where both parts are letters and
/// digits (a digest may hold `-` or `_`, which the delete check refuses).
pub proof fn lemma_delete_finds_upload(b: Seq<u8>, stem: Seq<char>, e: Seq<char>)
    requires
        e.len() > 0,
        all_alnum(e),
        all_alnum(b64url_of(sha512_224_of(b))),
    ensures
        delete_path(b64url_of(sha512_224_of(b)), e) == storage_path(
            stored_name(b, Some(stem + seq!['.'] + e)),
        ),
{
    assert forall|i: int| 0 <= i < e.len() implies #[trigger] e[i] != '.' by {
        assert(crate::storage::is_alnum(e[i]));
    }
    lemma_stored_name_shape(b, stem, e, Seq::empty());
}

} // verus!
