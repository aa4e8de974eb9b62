use vstd::prelude::*;
use crate::digest::{absorbed, hasher_finalize, hasher_new, hasher_update, sha512_224_of, HashState};

verus! {

/// What the caller does next with the chunk that the sink last accepted.
pub enum WriteStep {
    /// Write the chunk's bytes from index `start` on at file offset `offset`.
    Write { offset: u64, start: usize },
    /// The chunk is entirely in the file.
    Done,
    /// The write failed or wrote nothing: the upload is abandoned.
    Failed,
}

/// Appends a stream of chunks to a file at an advancing offset and feeds the
/// same bytes, in the same order, to a SHA-512/224 state. The file I/O is the
/// caller's: the sink says where to write and learns how much was written.
pub struct StreamingSink {
    hasher: HashState,
    cursor: u64,
    chunk_len: usize,
    pending: usize,
    received: Ghost<Seq<u8>>,
}

/// How `accept` moves a sink from `pre` to `post` on `chunk`.
pub open spec fn accepted(pre: StreamingSink, post: StreamingSink, chunk: Seq<u8>, step: WriteStep) -> bool {
    &&& post.received() == pre.received() + chunk
    &&& post.cursor() == pre.cursor()
    &&& post.pending() == chunk.len()
    &&& post.chunk_len() == chunk.len()
    &&& (chunk.len() == 0 ==> step == WriteStep::Done)
    &&& (chunk.len() > 0 ==> step == (WriteStep::Write { offset: pre.cursor() as u64, start: 0 }))
}

/// How `record_write` moves a sink from `pre` to `post` on `outcome`.
pub open spec fn recorded(pre: StreamingSink, post: StreamingSink, outcome: Option<usize>, step: WriteStep) -> bool {
    &&& post.received() == pre.received()
    &&& post.chunk_len() == pre.chunk_len()
    &&& match outcome {
        Some(n) if 0 < n && n <= pre.pending() => {
            &&& post.cursor() == pre.cursor() + n
            &&& post.pending() == pre.pending() - n
            &&& (post.pending() == 0 ==> step == WriteStep::Done)
            &&& (post.pending() > 0 ==> step == (WriteStep::Write {
                offset: post.cursor() as u64,
                start: (post.chunk_len() - post.pending()) as usize,
            }))
        },
        _ => {
            &&& post.cursor() == pre.cursor()
            &&& post.pending() == pre.pending()
            &&& step == if pre.pending() == 0 {
                WriteStep::Done
            } else {
                WriteStep::Failed
            }
        },
    }
}

impl StreamingSink {
    /// Every byte accepted so far, in order.
    pub closed spec fn received(&self) -> Seq<u8> {
        self.received@
    }

    /// The offset at which the next byte goes.
    pub closed spec fn cursor(&self) -> nat {
        self.cursor as nat
    }

    /// Bytes of the last accepted chunk that are not yet in the file.
    pub closed spec fn pending(&self) -> nat {
        self.pending as nat
    }

    /// Length of the last accepted chunk.
    pub closed spec fn chunk_len(&self) -> nat {
        self.chunk_len as nat
    }

    /// What the file holds: the accepted bytes up to the cursor.
    pub open spec fn written(&self) -> Seq<u8> {
        self.received().take(self.cursor() as int)
    }

    pub closed spec fn wf(&self) -> bool {
        &&& absorbed(self.hasher) == self.received@
        &&& self.cursor + self.pending == self.received@.len()
        &&& self.pending <= self.chunk_len
        &&& self.received@.len() <= u64::MAX
    }

    /// A sink on a freshly created, empty file.
    pub fn new() -> (s: Self)
        ensures
            s.wf(),
            s.received() == Seq::<u8>::empty(),
            s.cursor() == 0,
            s.pending() == 0,
    {
        StreamingSink {
            hasher: hasher_new(),
            cursor: 0,
            chunk_len: 0,
            pending: 0,
            received: Ghost(Seq::empty()),
        }
    }

    /// Takes the next chunk of the stream: it is hashed before any of it is
    /// written, and the caller is told where to write it.
    pub fn accept(&mut self, chunk: &[u8]) -> (step: WriteStep)
        requires
            old(self).wf(),
            old(self).pending() == 0,
            old(self).received().len() + chunk@.len() <= u64::MAX,
        ensures
            final(self).wf(),
            accepted(*old(self), *final(self), chunk@, step),
    {
        hasher_update(&mut self.hasher, chunk);
        self.received = Ghost(self.received@ + chunk@);
        self.chunk_len = chunk.len();
        self.pending = chunk.len();
        if chunk.len() == 0 {
            WriteStep::Done
        } else {
            WriteStep::Write { offset: self.cursor, start: 0 }
        }
    }

    /// Learns the outcome of the last write: `None` for an I/O error, else
    /// the number of bytes the file took. Nothing written, an error, or more
    /// than was asked fails the upload; a short write asks for the rest.
    pub fn record_write(&mut self, outcome: Option<usize>) -> (step: WriteStep)
        requires
            old(self).wf(),
        ensures
            final(self).wf(),
            recorded(*old(self), *final(self), outcome, step),
    {
        if self.pending == 0 {
            return WriteStep::Done;
        }
        match outcome {
            Some(n) => {
                if n == 0 || n > self.pending {
                    WriteStep::Failed
                } else {
                    self.cursor = self.cursor + n as u64;
                    self.pending = self.pending - n;
                    if self.pending == 0 {
                        WriteStep::Done
                    } else {
                        WriteStep::Write { offset: self.cursor, start: self.chunk_len - self.pending }
                    }
                }
            },
            None => WriteStep::Failed,
        }
    }

    /// Ends the stream once every accepted byte is in the file, and returns
    /// the digest of all of them.
    pub fn finish(self) -> (digest: Vec<u8>)
        requires
            self.wf(),
            self.pending() == 0,
        ensures
            digest@ == sha512_224_of(self.received()),
            digest@.len() == 28,
            self.written() == self.received(),
    {
        assert(self.received@.take(self.cursor as int) =~= self.received@);
        hasher_finalize(self.hasher)
    }
}

/// Once no accepted byte is pending, the file holds every byte the sink
/// accepted, in the order it accepted them.
pub proof fn lemma_settled_sink_holds_all(s: StreamingSink)
    requires
        s.wf(),
        s.pending() == 0,
    ensures
        s.written() == s.received(),
        s.cursor() == s.received().len(),
{
    assert(s.received().take(s.cursor() as int) =~= s.received());
}

} // verus!
