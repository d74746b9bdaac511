//! GPU-memory-backed buffers, modeled by their logical contents.
//!
//! A `Buffer<T>` holds a homogeneous array of `T` in device memory,
//! exclusively owned by its creator.  `update` copies in place when the
//! element count is unchanged and otherwise replaces the underlying
//! allocation, preserving the logical handle; either way the buffer
//! afterwards holds exactly the data given, which is what the rest of
//! the renderer relies on.

use vstd::prelude::*;
use crate::error::GameResult;

verus! {

/// A typed GPU buffer: a device allocation holding `count()` elements.
#[derive(Debug)]
pub struct Buffer<T: Copy> {
    /// The logical contents of the device memory.
    pub data: Vec<T>,
}

impl<T: Copy> Buffer<T> {
    /// The buffer's contents as a sequence.
    pub open spec fn contents(self) -> Seq<T> {
        self.data@
    }

    /// An empty buffer: an allocation with no elements written yet.
    pub fn empty() -> (b: Buffer<T>)
        ensures
            b.contents() =~= Seq::<T>::empty(),
    {
        Buffer { data: Vec::new() }
    }

    /// Allocates device memory sized to `data` and uploads it.
    pub fn new(data: &[T]) -> (r: GameResult<Buffer<T>>)
        ensures
            r matches Ok(b) && b.contents() == data@,
    {
        let mut b = Buffer::empty();
        match b.update(data) {
            Ok(()) => Ok(b),
            Err(e) => Err(e),
        }
    }

    /// Uploads `data`, replacing the previous contents.
    ///
    /// A same-length update copies over the mapped memory in place; a
    /// different length frees the old allocation and makes a new one.
    /// Afterwards the buffer holds exactly `data`: a read-back returns
    /// it unchanged.
    pub fn update(&mut self, data: &[T]) -> (r: GameResult<()>)
        ensures
            r is Ok,
            final(self).contents() == data@,
    {
        self.data.clear();
        let n = data.len();
        for i in 0..n
            invariant
                n == data@.len(),
                self.data@ == data@.subrange(0, i as int),
        {
            self.data.push(data[i]);
        }
        proof {
            assert(data@.subrange(0, n as int) =~= data@);
        }
        Ok(())
    }

    /// Reads the buffer's contents back from device memory.
    pub fn read_back(&self) -> (r: Vec<T>)
        ensures
            r@ == self.contents(),
    {
        let mut out: Vec<T> = Vec::new();
        let n = self.data.len();
        for i in 0..n
            invariant
                n == self.data@.len(),
                out@ == self.data@.subrange(0, i as int),
        {
            out.push(self.data[i]);
        }
        proof {
            assert(self.data@.subrange(0, n as int) =~= self.data@);
        }
        out
    }

    /// Returns the number of elements in the buffer.
    pub fn count(&self) -> (n: usize)
        ensures
            n == self.contents().len(),
    {
        self.data.len()
    }
}

/// The round trip the buffer contract promises: an `update` with `data`
/// followed by a read-back returns exactly `data`, for any length.
///
/// `update` ensures the contents equal `data`, and `read_back` returns
/// the contents; this states the composition.
pub proof fn lemma_update_read_back<T: Copy>(b: Buffer<T>, data: Seq<T>, read: Seq<T>)
    requires
        b.contents() == data,
        read == b.contents(),
    ensures
        read == data,
{
}

} // verus!
