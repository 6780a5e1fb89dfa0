//! The blob delivery proxy's buffering core: accumulate an upstream
//! byte stream under a hard ceiling, aborting the instant cumulative
//! bytes would exceed it — never truncating silently — and reporting a
//! distinct status for an oversize blob and for an upstream fault.

use vstd::prelude::*;

verus! {

/// Why a blob fetch failed.
#[derive(Debug, Clone, Copy, PartialEq, Eq, Structural)]
pub enum BlobFetchError {
    /// The body would exceed the configured ceiling.
    Oversize,
    /// The upstream transport failed mid-stream.
    Upstream,
}

/// The concatenation of a sequence of chunks.
pub open spec fn concat_of(cs: Seq<Seq<u8>>) -> Seq<u8>
    decreases cs.len(),
{
    if cs.len() == 0 {
        Seq::empty()
    } else {
        concat_of(cs.drop_last()) + cs.last()
    }
}

/// A byte buffer that never holds more than its ceiling.
pub struct BlobBuffer {
    bytes: Vec<u8>,
    ceiling: usize,
}

impl BlobBuffer {
    /// The bytes accumulated so far.
    pub closed spec fn spec_bytes(self) -> Seq<u8> {
        self.bytes@
    }

    /// The configured ceiling.
    pub closed spec fn spec_ceiling(self) -> usize {
        self.ceiling
    }

    /// The buffer never exceeds the ceiling in memory.
    pub closed spec fn wf(self) -> bool {
        self.bytes@.len() <= self.ceiling
    }

    /// An empty buffer, pre-sized from the declared content length when
    /// one is available, clamped to the ceiling.
    pub fn new(content_length: Option<u64>, ceiling: usize) -> (b: BlobBuffer)
        ensures
            b.wf(),
            b.spec_bytes() == Seq::<u8>::empty(),
            b.spec_ceiling() == ceiling,
    {
        let cap: usize = match content_length {
            Some(n) => {
                if n < ceiling as u64 {
                    n as usize
                } else {
                    ceiling
                }
            },
            None => 0,
        };
        BlobBuffer { bytes: Vec::with_capacity(cap), ceiling }
    }

    /// Appends one chunk, or aborts with the oversize condition the
    /// instant the cumulative length would exceed the ceiling, leaving
    /// the buffer as it was.
    pub fn push_chunk(&mut self, chunk: &Vec<u8>) -> (r: Result<(), BlobFetchError>)
        requires
            old(self).wf(),
        ensures
            final(self).wf(),
            final(self).spec_ceiling() == old(self).spec_ceiling(),
            match r {
                Ok(()) => {
                    &&& old(self).spec_bytes().len() + chunk@.len()
                        <= old(self).spec_ceiling()
                    &&& final(self).spec_bytes() == old(self).spec_bytes() + chunk@
                },
                Err(e) => {
                    &&& e == BlobFetchError::Oversize
                    &&& old(self).spec_bytes().len() + chunk@.len() > old(self).spec_ceiling()
                    &&& *final(self) == *old(self)
                },
            },
    {
        if chunk.len() > self.ceiling - self.bytes.len() {
            return Err(BlobFetchError::Oversize);
        }
        let mut i: usize = 0;
        while i < chunk.len()
            invariant
                0 <= i <= chunk@.len(),
                self.bytes@ == old(self).bytes@ + chunk@.take(i as int),
                self.ceiling == old(self).ceiling,
                old(self).bytes@.len() + chunk@.len() <= self.ceiling,
            decreases chunk@.len() - i,
        {
            self.bytes.push(chunk[i]);
            proof {
                assert(self.bytes@ =~= old(self).bytes@ + chunk@.take(i + 1));
            }
            i += 1;
        }
        proof {
            assert(chunk@.take(chunk@.len() as int) =~= chunk@);
        }
        Ok(())
    }

    /// Hands the complete byte sequence out.
    pub fn into_bytes(self) -> (r: Vec<u8>)
        ensures
            r@ == self.spec_bytes(),
    {
        self.bytes
    }
}

/// Accumulates a whole stream of chunks under `ceiling`: the complete
/// byte sequence when its total length fits, and the oversize condition
/// otherwise — reported before the ceiling is ever exceeded in memory.
pub fn assemble_blob(chunks: &Vec<Vec<u8>>, content_length: Option<u64>, ceiling: usize) -> (r:
    Result<Vec<u8>, BlobFetchError>)
    ensures
        match r {
            Ok(bytes) => {
                &&& concat_of(chunks.deep_view()).len() <= ceiling
                &&& bytes@ == concat_of(chunks.deep_view())
            },
            Err(e) => {
                &&& e == BlobFetchError::Oversize
                &&& concat_of(chunks.deep_view()).len() > ceiling
            },
        },
{
    let ghost cs = chunks.deep_view();
    let mut buf = BlobBuffer::new(content_length, ceiling);
    let mut i: usize = 0;
    proof {
        assert(concat_of(cs.take(0)) =~= Seq::<u8>::empty());
    }
    while i < chunks.len()
        invariant
            0 <= i <= chunks@.len(),
            cs == chunks.deep_view(),
            cs.len() == chunks@.len(),
            buf.wf(),
            buf.spec_ceiling() == ceiling,
            buf.spec_bytes() == concat_of(cs.take(i as int)),
        decreases chunks@.len() - i,
    {
        proof {
            assert(cs[i as int] == chunks@[i as int].deep_view());
            assert(cs[i as int] =~= chunks@[i as int]@);
            assert(cs.take(i + 1).drop_last() =~= cs.take(i as int));
            assert(cs.take(i + 1).last() == cs[i as int]);
        }
        match buf.push_chunk(&chunks[i]) {
            Ok(()) => {},
            Err(e) => {
                proof {
                    lemma_concat_of_len_monotonic(cs, i + 1);
                }
                return Err(e);
            },
        }
        i += 1;
    }
    proof {
        assert(cs.take(cs.len() as int) =~= cs);
    }
    Ok(buf.into_bytes())
}

/// A prefix of the stream never holds more bytes than the whole stream.
proof fn lemma_concat_of_len_monotonic(cs: Seq<Seq<u8>>, i: int)
    requires
        0 <= i <= cs.len(),
    ensures
        concat_of(cs.take(i)).len() <= concat_of(cs).len(),
    decreases cs.len() - i,
{
    if i < cs.len() {
        lemma_concat_of_len_monotonic(cs, i + 1);
        assert(cs.take(i + 1).drop_last() =~= cs.take(i));
        assert(concat_of(cs.take(i + 1)) == concat_of(cs.take(i)) + cs.take(i + 1).last());
    } else {
        assert(cs.take(i) =~= cs);
    }
}

/// The status reported to the blob caller: the full byte sequence is
/// served, an oversize blob is payload-too-large, an upstream fault is
/// bad-gateway.
pub open spec fn spec_blob_fetch_status(r: Result<Seq<u8>, BlobFetchError>) -> u16 {
    match r {
        Ok(_) => 200,
        Err(BlobFetchError::Oversize) => 413,
        Err(BlobFetchError::Upstream) => 502,
    }
}

/// Maps a fetch result to its response status code.
pub fn blob_fetch_status(r: &Result<Vec<u8>, BlobFetchError>) -> (status: u16)
    ensures
        status == spec_blob_fetch_status(
            match r {
                Ok(v) => Ok::<Seq<u8>, BlobFetchError>(v@),
                Err(e) => Err(*e),
            },
        ),
{
    match r {
        Ok(_) => 200,
        Err(BlobFetchError::Oversize) => 413,
        Err(BlobFetchError::Upstream) => 502,
    }
}

} // verus!
