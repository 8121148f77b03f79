use vstd::prelude::*;
use crate::error::IoError;

verus! {

/// The most bytes one load request of the stream reader can ask for.
pub const MAX_LOAD: u64 = 0xffff_ffff;

/// Reads a thumbnail stream of announced length into an owned buffer.
///
/// The caller owns the stream and its reader. It asks for `remaining()` bytes
/// at a time, hands each chunk it got to `accept`, reports a failed load or
/// read with `fail`, stops once `is_done()` holds, releases the stream and
/// reader, and calls `finish`.
pub struct ThumbnailDecoder {
    expected: usize,
    buffer: Vec<u8>,
    error: Option<IoError>,
}

/// What a decoder has seen: the announced length, the bytes received so far
/// and the first error, if any.
pub struct ThumbnailView {
    pub expected: nat,
    pub received: Seq<u8>,
    pub error: Option<IoError>,
}

impl View for ThumbnailDecoder {
    type V = ThumbnailView;

    closed spec fn view(&self) -> ThumbnailView {
        ThumbnailView { expected: self.expected as nat, received: self.buffer@, error: self.error }
    }
}

/// The state after a chunk arrives: an empty chunk while bytes are still
/// owed, or one that runs past the announced length, is a length mismatch;
/// after an error nothing changes.
pub open spec fn after_chunk(v: ThumbnailView, chunk: Seq<u8>) -> ThumbnailView {
    if v.error is Some {
        v
    } else if (chunk.len() == 0 && v.received.len() < v.expected) || v.received.len()
        + chunk.len() > v.expected {
        ThumbnailView { error: Some(IoError::LengthMismatch), ..v }
    } else {
        ThumbnailView { received: v.received + chunk, ..v }
    }
}

/// The state after a failed load or read: the first error is kept.
pub open spec fn after_failure(v: ThumbnailView) -> ThumbnailView {
    if v.error is Some {
        v
    } else {
        ThumbnailView { error: Some(IoError::ReadFailed), ..v }
    }
}

/// What a finished read yields: the bytes when no error came and all of them
/// arrived, else the error.
pub open spec fn outcome_of(v: ThumbnailView) -> Result<Seq<u8>, IoError> {
    match v.error {
        Some(e) => Err(e),
        None => if v.received.len() == v.expected {
            Ok(v.received)
        } else {
            Err(IoError::LengthMismatch)
        },
    }
}

/// The state after a run of chunks, in order.
pub open spec fn after_chunks(v: ThumbnailView, chunks: Seq<Seq<u8>>) -> ThumbnailView
    decreases chunks.len(),
{
    if chunks.len() == 0 {
        v
    } else {
        after_chunk(after_chunks(v, chunks.drop_last()), chunks.last())
    }
}

proof fn lemma_error_is_kept(v: ThumbnailView, chunks: Seq<Seq<u8>>)
    requires
        v.error is Some,
    ensures
        after_chunks(v, chunks) == v,
    decreases chunks.len(),
{
    if chunks.len() > 0 {
        lemma_error_is_kept(v, chunks.drop_last());
    }
}

/// A read that fails at any point ends in an error, whatever chunks still
/// arrive afterwards: no partly filled buffer is handed out as a success.
pub proof fn lemma_failed_read_is_error(v: ThumbnailView, chunks: Seq<Seq<u8>>)
    ensures
        outcome_of(after_chunks(after_failure(v), chunks)) is Err,
{
    lemma_error_is_kept(after_failure(v), chunks);
}

/// The bytes of a run of chunks, in order.
pub open spec fn joined(chunks: Seq<Seq<u8>>) -> Seq<u8>
    decreases chunks.len(),
{
    if chunks.len() == 0 {
        Seq::empty()
    } else {
        joined(chunks.drop_last()) + chunks.last()
    }
}

proof fn lemma_chunks_accumulate(expected: nat, chunks: Seq<Seq<u8>>)
    requires
        forall|k: int| 0 <= k < chunks.len() ==> (#[trigger] chunks[k]).len() > 0,
        joined(chunks).len() <= expected,
    ensures
        after_chunks(ThumbnailView { expected, received: Seq::empty(), error: None }, chunks)
            == (ThumbnailView { expected, received: joined(chunks), error: None }),
    decreases chunks.len(),
{
    if chunks.len() > 0 {
        let rest = chunks.drop_last();
        assert forall|k: int| 0 <= k < rest.len() implies (#[trigger] rest[k]).len() > 0 by {
            assert(rest[k] == chunks[k]);
        }
        assert(chunks.last() == chunks[chunks.len() - 1]);
        lemma_chunks_accumulate(expected, rest);
    }
}

/// A read whose non-empty chunks bring exactly the announced number of bytes,
/// with no failure, yields those bytes in order.
pub proof fn lemma_complete_read(expected: nat, chunks: Seq<Seq<u8>>)
    requires
        forall|k: int| 0 <= k < chunks.len() ==> (#[trigger] chunks[k]).len() > 0,
        joined(chunks).len() == expected,
    ensures
        outcome_of(after_chunks(ThumbnailView { expected, received: Seq::empty(), error: None }, chunks))
            == Ok::<Seq<u8>, IoError>(joined(chunks)),
{
    lemma_chunks_accumulate(expected, chunks);
}

impl ThumbnailDecoder {
    pub open spec fn wf(&self) -> bool {
        &&& self@.expected <= MAX_LOAD
        &&& self@.received.len() <= self@.expected
    }

    /// Starts a read of a stream of `stream_len` bytes; a stream longer than
    /// one load request can cover is refused.
    pub fn new(stream_len: u64) -> (r: Result<ThumbnailDecoder, IoError>)
        ensures
            r is Err <==> stream_len > MAX_LOAD,
            r is Err ==> r->Err_0 == IoError::TooLarge,
            r is Ok ==> r->Ok_0.wf() && r->Ok_0@ == (ThumbnailView {
                expected: stream_len as nat,
                received: Seq::empty(),
                error: None,
            }),
    {
        if stream_len > MAX_LOAD {
            return Err(IoError::TooLarge);
        }
        Ok(ThumbnailDecoder { expected: stream_len as usize, buffer: Vec::new(), error: None })
    }

    /// How many bytes are still owed.
    pub fn remaining(&self) -> (r: u32)
        requires
            self.wf(),
        ensures
            r == self@.expected - self@.received.len(),
    {
        (self.expected - self.buffer.len()) as u32
    }

    /// Whether the read is over: an error came, or every byte arrived.
    pub fn is_done(&self) -> (r: bool)
        requires
            self.wf(),
        ensures
            r == (self@.error is Some || self@.received.len() == self@.expected),
    {
        self.error.is_some() || self.buffer.len() == self.expected
    }

    /// Takes the bytes of one load.
    pub fn accept(&mut self, chunk: Vec<u8>)
        requires
            old(self).wf(),
        ensures
            final(self).wf(),
            final(self)@ == after_chunk(old(self)@, chunk@),
    {
        if self.error.is_some() {
            return;
        }
        let owed = self.expected - self.buffer.len();
        if (chunk.len() == 0 && owed > 0) || chunk.len() > owed {
            self.error = Some(IoError::LengthMismatch);
            return;
        }
        let mut chunk = chunk;
        self.buffer.append(&mut chunk);
    }

    /// Records that a load or read failed.
    pub fn fail(&mut self)
        requires
            old(self).wf(),
        ensures
            final(self).wf(),
            final(self)@ == after_failure(old(self)@),
    {
        if self.error.is_none() {
            self.error = Some(IoError::ReadFailed);
        }
    }

    /// Ends the read. Success carries exactly the announced number of bytes,
    /// as received; a read that failed anywhere, or fell short, is an error and
    /// hands back no bytes.
    pub fn finish(self) -> (r: Result<Vec<u8>, IoError>)
        requires
            self.wf(),
        ensures
            r is Ok <==> outcome_of(self@) is Ok,
            r is Ok ==> r->Ok_0@ == outcome_of(self@)->Ok_0,
            r is Ok ==> r->Ok_0@.len() == self@.expected,
            r is Err ==> r->Err_0 == outcome_of(self@)->Err_0,
    {
        match self.error {
            Some(e) => Err(e),
            None => {
                if self.buffer.len() == self.expected {
                    Ok(self.buffer)
                } else {
                    Err(IoError::LengthMismatch)
                }
            },
        }
    }
}

} // verus!
