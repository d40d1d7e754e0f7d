//! Small verified helpers on byte vectors: equality, copying, appending, and
//! matching a byte vector against a range of another. Identities, nullifiers,
//! hashes and signatures are all carried as byte vectors, so these are the
//! primitives the rest of the crate compares and assembles them with.
use vstd::prelude::*;

verus! {

/// True exactly when the two vectors hold the same bytes.
pub fn bytes_eq(a: &Vec<u8>, b: &Vec<u8>) -> (r: bool)
    ensures
        r == (a@ == b@),
{
    if a.len() != b.len() {
        return false;
    }
    let mut i: usize = 0;
    while i < a.len()
        invariant
            i <= a@.len(),
            a@.len() == b@.len(),
            forall|j: int| 0 <= j < i ==> a@[j] == b@[j],
        decreases a@.len() - i,
    {
        if a[i] != b[i] {
            return false;
        }
        i += 1;
    }
    proof {
        assert(a@ =~= b@);
    }
    true
}

/// A fresh vector holding the same bytes as the source.
pub fn copy_bytes(src: &Vec<u8>) -> (r: Vec<u8>)
    ensures
        r@ == src@,
{
    let mut r: Vec<u8> = Vec::new();
    let mut i: usize = 0;
    while i < src.len()
        invariant
            i <= src@.len(),
            r@.len() == i,
            forall|j: int| 0 <= j < i ==> r@[j] == src@[j],
        decreases src@.len() - i,
    {
        r.push(src[i]);
        i += 1;
    }
    proof {
        assert(r@ =~= src@);
    }
    r
}

/// Appends all bytes of the source to the destination, in order.
pub fn append_bytes(dst: &mut Vec<u8>, src: &Vec<u8>)
    ensures
        final(dst)@ == old(dst)@ + src@,
{
    let mut i: usize = 0;
    while i < src.len()
        invariant
            i <= src@.len(),
            dst@.len() == old(dst)@.len() + i,
            forall|j: int| 0 <= j < old(dst)@.len() ==> dst@[j] == old(dst)@[j],
            forall|j: int| 0 <= j < i ==> dst@[old(dst)@.len() + j] == src@[j],
        decreases src@.len() - i,
    {
        dst.push(src[i]);
        i += 1;
    }
    proof {
        assert(dst@ =~= old(dst)@ + src@);
    }
}

/// True exactly when the bytes of `data` starting at `offset` equal `expected`.
pub fn range_matches(data: &Vec<u8>, offset: usize, expected: &Vec<u8>) -> (r: bool)
    requires
        offset + expected@.len() <= data@.len(),
    ensures
        r == (data@.subrange(offset as int, offset as int + expected@.len() as int)
            == expected@),
{
    let data_len: usize = data.len();
    let mut i: usize = 0;
    while i < expected.len()
        invariant
            i <= expected@.len(),
            offset + expected@.len() <= data_len,
            data_len == data@.len(),
            forall|j: int| 0 <= j < i ==> data@[offset + j] == expected@[j],
        decreases expected@.len() - i,
    {
        if data[offset + i] != expected[i] {
            proof {
                let ghost sub = data@.subrange(
                    offset as int,
                    offset as int + expected@.len() as int,
                );
                assert(sub[i as int] == data@[offset + i]);
            }
            return false;
        }
        i += 1;
    }
    proof {
        assert(data@.subrange(offset as int, offset as int + expected@.len() as int)
            =~= expected@);
    }
    true
}

} // verus!
