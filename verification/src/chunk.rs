//! The owned, immutable byte sequence that one operation produces or
//! consumes.

use vstd::prelude::*;

verus! {

/// An owned, immutable byte sequence: what one read produces and what one
/// write or sink submission consumes.  A chunk is never mutated after
/// creation; a chunk of length zero is the stream's end-of-file marker.
pub struct Chunk {
    bytes: Vec<u8>,
}

impl View for Chunk {
    type V = Seq<u8>;

    closed spec fn view(&self) -> Seq<u8> {
        self.bytes@
    }
}

impl Chunk {
    /// Wrap an owned byte buffer as an immutable chunk.
    pub fn new(bytes: Vec<u8>) -> (c: Chunk)
        ensures
            c@ == bytes@,
    {
        Chunk { bytes }
    }

    /// The chunk a completed read produces: the `count` bytes the blocking
    /// call put at the front of the buffer it was handed.
    pub fn from_read(buffer: Vec<u8>, count: usize) -> (c: Chunk)
        requires
            count <= buffer.len(),
        ensures
            c@ == buffer@.take(count as int),
    {
        let mut taken = buffer;
        taken.truncate(count);
        proof {
            assert(taken@ =~= buffer@.take(count as int));
        }
        Chunk { bytes: taken }
    }

    /// The number of bytes in the chunk.
    pub fn len(&self) -> (n: usize)
        ensures
            n == self@.len(),
    {
        self.bytes.len()
    }

    /// Whether the chunk is the end-of-file marker.
    pub fn is_empty(&self) -> (b: bool)
        ensures
            b == (self@.len() == 0),
    {
        self.bytes.len() == 0
    }

    /// Borrow the bytes.
    pub fn as_bytes(&self) -> (b: &Vec<u8>)
        ensures
            b@ == self@,
    {
        &self.bytes
    }

    /// Give the bytes up.
    pub fn into_bytes(self) -> (b: Vec<u8>)
        ensures
            b@ == self@,
    {
        self.bytes
    }
}

} // verus!
