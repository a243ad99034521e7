//! Byte-buffer arithmetic shared by the machines: clamping a request to a
//! buffer capacity, building the prefix one submission carries, and copying
//! a completed read back out.

use vstd::prelude::*;

verus! {

/// The number of bytes one submission may carry: `len`, clamped to the
/// machine's buffer capacity `cap`.
pub open spec fn clamped_len(len: nat, cap: nat) -> nat {
    if len <= cap {
        len
    } else {
        cap
    }
}

/// The bytes a single write submission carries: the longest prefix of `src`
/// that fits a buffer of capacity `cap`.
pub open spec fn submission_prefix(src: Seq<u8>, cap: nat) -> Seq<u8> {
    src.take(clamped_len(src.len(), cap) as int)
}

/// Clamp a requested length to a buffer capacity.
pub fn clamp(len: usize, cap: usize) -> (n: usize)
    ensures
        n == clamped_len(len as nat, cap as nat),
{
    if len <= cap {
        len
    } else {
        cap
    }
}

/// Copy the longest prefix of `src` that fits a buffer of capacity `cap`
/// into a fresh buffer.
pub fn prefix_to_capacity(src: &Vec<u8>, cap: usize) -> (buf: Vec<u8>)
    ensures
        buf@ == submission_prefix(src@, cap as nat),
{
    let n = clamp(src.len(), cap);
    let mut buf: Vec<u8> = Vec::new();
    let mut i: usize = 0;
    while i < n
        invariant
            i <= n,
            n == clamped_len(src@.len(), cap as nat),
            n <= src@.len(),
            buf@ == src@.take(i as int),
        decreases n - i,
    {
        buf.push(src[i]);
        proof {
            assert(buf@ =~= src@.take((i + 1) as int));
        }
        i = i + 1;
    }
    proof {
        assert(buf@ =~= submission_prefix(src@, cap as nat));
    }
    buf
}

/// Copy `count` bytes from the front of `data` over the front of `dest`,
/// leaving the rest of `dest` as it was.
pub fn copy_prefix_into(dest: &mut Vec<u8>, data: &Vec<u8>, count: usize)
    requires
        count <= data.len(),
        count <= old(dest).len(),
    ensures
        final(dest)@ == data@.take(count as int) + old(dest)@.skip(count as int),
{
    let mut i: usize = 0;
    while i < count
        invariant
            i <= count,
            count <= data@.len(),
            count <= dest@.len(),
            dest@.len() == old(dest)@.len(),
            dest@ == data@.take(i as int) + old(dest)@.skip(i as int),
        decreases count - i,
    {
        let b = data[i];
        dest[i] = b;
        proof {
            assert(dest@ =~= data@.take((i + 1) as int) + old(dest)@.skip((i + 1) as int));
        }
        i = i + 1;
    }
    proof {
        assert(dest@ =~= data@.take(count as int) + old(dest)@.skip(count as int));
    }
}

/// A zero-filled buffer of the given length.
pub fn zeroed(len: usize) -> (buf: Vec<u8>)
    ensures
        buf@.len() == len,
        forall|j: int| 0 <= j < len ==> buf@[j] == 0u8,
{
    let mut buf: Vec<u8> = Vec::new();
    let mut i: usize = 0;
    while i < len
        invariant
            i <= len,
            buf@.len() == i,
            forall|j: int| 0 <= j < i ==> buf@[j] == 0u8,
        decreases len - i,
    {
        buf.push(0u8);
        i = i + 1;
    }
    buf
}

} // verus!
