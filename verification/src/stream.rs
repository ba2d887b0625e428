use vstd::prelude::*;

verus! {

/// The largest number of bytes that one read of a stream asks its socket for.
pub const MAX_READ_CHUNK: usize = 1380;

/// The number of bytes that one read asks for, given the room left in the caller's buffer.
pub open spec fn chunk_len(remaining: nat) -> nat {
    if remaining < MAX_READ_CHUNK {
        remaining
    } else {
        MAX_READ_CHUNK as nat
    }
}

/// What a finished read hands to the caller's buffer: the bytes that the socket wrote at
/// the front of the chunk it was given to fill, and nothing more.
pub open spec fn delivered(chunk: Seq<u8>, nread: nat) -> Seq<u8> {
    chunk.subrange(0, nread as int)
}

/// The number of bytes that one read asks for, given the room left in the caller's buffer.
pub fn read_chunk_len(remaining: usize) -> (n: usize)
    ensures
        n == chunk_len(remaining as nat),
        n <= remaining,
        n <= MAX_READ_CHUNK,
{
    if remaining < MAX_READ_CHUNK {
        remaining
    } else {
        MAX_READ_CHUNK
    }
}

/// What a finished read hands to the caller's buffer, given the chunk it filled and the
/// number of bytes the socket reported (never more than the chunk holds).
pub fn read_delivery(chunk: Vec<u8>, nread: usize) -> (d: Vec<u8>)
    requires
        nread <= chunk.len(),
    ensures
        d@ == delivered(chunk@, nread as nat),
{
    let mut d = chunk;
    d.truncate(nread);
    d
}

/// Law: the chunk a read asks for never exceeds the room left in the caller's buffer nor
/// the largest chunk, and is the larger of the two bounds it can be: the whole room where
/// the room is smaller than the largest chunk, and the largest chunk otherwise.
pub proof fn lemma_chunk_is_smaller_bound(remaining: nat)
    ensures
        chunk_len(remaining) <= remaining,
        chunk_len(remaining) <= MAX_READ_CHUNK,
        chunk_len(remaining) == remaining || chunk_len(remaining) == MAX_READ_CHUNK,
        remaining <= MAX_READ_CHUNK ==> chunk_len(remaining) == remaining,
        remaining >= MAX_READ_CHUNK ==> chunk_len(remaining) == MAX_READ_CHUNK,
{
}

/// Law: what a read delivers is exactly the bytes the socket read, so it never overflows
/// the caller's buffer when the chunk had at most the room that buffer has, and never
/// exceeds the largest chunk when the chunk had the length that `read_chunk_len` chose.
pub proof fn lemma_delivery_fits(remaining: nat, chunk: Seq<u8>, nread: nat)
    requires
        nread <= chunk.len(),
        chunk.len() <= remaining,
    ensures
        delivered(chunk, nread).len() == nread,
        delivered(chunk, nread).len() <= remaining,
        chunk.len() == chunk_len(remaining) ==> delivered(chunk, nread).len() <= MAX_READ_CHUNK,
{
}

/// Law: a read that reports no bytes delivers nothing, so the caller sees the end of
/// the stream.
pub proof fn lemma_empty_read_delivers_nothing(chunk: Seq<u8>)
    ensures
        delivered(chunk, 0) == Seq::<u8>::empty(),
{
}

} // verus!
