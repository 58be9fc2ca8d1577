//! Incremental accumulation of an uploaded payload. The buffer enforces
//! the configured maximum as chunks arrive, so an oversized upload is
//! rejected as soon as the running total passes the limit, without
//! buffering the rest.

use vstd::prelude::*;

use crate::errors::AppError;

verus! {

/// A payload being received chunk by chunk, bounded by a fixed maximum.
pub struct UploadBuffer {
    data: Vec<u8>,
    max_size: usize,
}

impl UploadBuffer {
    /// The bytes received so far.
    pub closed spec fn bytes(self) -> Seq<u8> {
        self.data@
    }

    /// The configured maximum payload size.
    pub closed spec fn max(self) -> int {
        self.max_size as int
    }

    /// The buffer never holds more than the maximum.
    pub open spec fn wf(self) -> bool {
        self.bytes().len() <= self.max()
    }

    /// An empty buffer with the given maximum.
    pub fn new(max_size: usize) -> (b: Self)
        ensures
            b.wf(),
            b.bytes() == Seq::<u8>::empty(),
            b.max() == max_size,
    {
        UploadBuffer { data: Vec::new(), max_size }
    }

    /// The number of bytes received so far.
    pub fn size(&self) -> (n: usize)
        ensures
            n == self.bytes().len(),
    {
        self.data.len()
    }

    /// Appends a chunk when the running total stays within the maximum;
    /// rejects it with `FileTooLarge`, leaving the buffer unchanged, as
    /// soon as the total would pass the maximum.
    pub fn push_chunk(&mut self, chunk: &[u8]) -> (r: Result<(), AppError>)
        requires
            old(self).wf(),
        ensures
            final(self).wf(),
            final(self).max() == old(self).max(),
            old(self).bytes().len() + chunk@.len() <= old(self).max() ==> (r is Ok
                && final(self).bytes() == old(self).bytes() + chunk@),
            old(self).bytes().len() + chunk@.len() > old(self).max() ==> (r matches Err(e)
                && e is FileTooLarge
                && final(self).bytes() == old(self).bytes()),
    {
        if chunk.len() <= self.max_size && self.data.len() <= self.max_size - chunk.len() {
            let ghost before = self.data@;
            self.data.extend_from_slice(chunk);
            proof {
                assert forall|i: int| 0 <= i < self.data@.len() implies self.data@[i] == (before
                    + chunk@)[i] by {
                }
                assert(self.data@ =~= before + chunk@);
            }
            Ok(())
        } else {
            Err(AppError::FileTooLarge)
        }
    }

    /// Hands the accumulated payload out.
    pub fn into_bytes(self) -> (d: Vec<u8>)
        ensures
            d@ == self.bytes(),
    {
        self.data
    }
}

} // verus!
