//! Splitting a firmware image into the chunks that travel in ProgramData
//! frames.

use vstd::prelude::*;
use vstd::slice::slice_subrange;

verus! {

/// The number of firmware bytes that one ProgramData frame carries.
pub const CHUNK_LEN: usize = 7;

/// The number of chunks of an image of `len` bytes: `len / 7`, rounded up.
pub open spec fn chunk_count_of(len: nat) -> nat {
    (len + 6) / 7
}

/// Where chunk `index` starts in an image of `len` bytes.
pub open spec fn chunk_start(len: nat, index: nat) -> nat {
    if 7 * index < len {
        7 * index
    } else {
        len
    }
}

/// Where chunk `index` ends in an image of `len` bytes.
pub open spec fn chunk_end(len: nat, index: nat) -> nat {
    if 7 * index + 7 < len {
        7 * index + 7
    } else {
        len
    }
}

/// Chunk `index` of an image, without padding: the bytes from `7 * index`
/// up to the next multiple of seven or the end of the image.  It is empty
/// from the chunk count on.
pub open spec fn chunk_of(firmware: Seq<u8>, index: nat) -> Seq<u8> {
    firmware.subrange(
        chunk_start(firmware.len(), index) as int,
        chunk_end(firmware.len(), index) as int,
    )
}

/// The first `count` chunks of an image, one after the other.
pub open spec fn joined_chunks(firmware: Seq<u8>, count: nat) -> Seq<u8>
    decreases count,
{
    if count == 0 {
        Seq::empty()
    } else {
        joined_chunks(firmware, (count - 1) as nat) + chunk_of(firmware, (count - 1) as nat)
    }
}

/// The number of chunks of an image of `len` bytes.
pub fn chunk_count(len: usize) -> (count: usize)
    ensures
        count == chunk_count_of(len as nat),
{
    if len % CHUNK_LEN == 0 {
        len / CHUNK_LEN
    } else {
        len / CHUNK_LEN + 1
    }
}

/// Chunk `index` of an image, without padding.
pub fn chunk(firmware: &[u8], index: usize) -> (piece: &[u8])
    ensures
        piece@ == chunk_of(firmware@, index as nat),
{
    let len = firmware.len();
    if index > len / CHUNK_LEN {
        slice_subrange(firmware, len, len)
    } else {
        let start = index * CHUNK_LEN;
        let end = if len - start > CHUNK_LEN {
            start + CHUNK_LEN
        } else {
            len
        };
        slice_subrange(firmware, start, end)
    }
}

/// The chunk count is the ceiling of `len / 7`: the least number of
/// seven-byte chunks that hold `len` bytes.
pub proof fn lemma_chunk_count_is_ceiling(len: nat)
    ensures
        7 * chunk_count_of(len) >= len,
        len > 0 ==> 7 * (chunk_count_of(len) - 1) < len,
        len == 0 ==> chunk_count_of(len) == 0,
{
}

/// Every chunk but the last is seven bytes long; the last holds the one to
/// seven bytes that are left; there is nothing from the chunk count on.
pub proof fn lemma_chunk_lengths(firmware: Seq<u8>, index: nat)
    ensures
        index + 1 < chunk_count_of(firmware.len()) ==> chunk_of(firmware, index).len() == 7,
        index + 1 == chunk_count_of(firmware.len()) ==> chunk_of(firmware, index).len()
            == firmware.len() - 7 * index && 1 <= chunk_of(firmware, index).len() <= 7,
        index >= chunk_count_of(firmware.len()) ==> chunk_of(firmware, index).len() == 0,
{
}

/// Byte `offset` of chunk `index` is byte `7 * index + offset` of the
/// image.
pub proof fn lemma_chunk_bytes(firmware: Seq<u8>, index: nat, offset: int)
    requires
        0 <= offset < chunk_of(firmware, index).len(),
    ensures
        7 * index + offset < firmware.len(),
        chunk_of(firmware, index)[offset] == firmware[7 * index + offset],
{
}

/// The first `count` chunks, joined, are the image up to byte `7 * count`.
pub proof fn lemma_joined_chunks_prefix(firmware: Seq<u8>, count: nat)
    ensures
        joined_chunks(firmware, count) == firmware.subrange(
            0,
            chunk_start(firmware.len(), count) as int,
        ),
    decreases count,
{
    if count > 0 {
        lemma_joined_chunks_prefix(firmware, (count - 1) as nat);
    }
}

/// The chunks of an image, joined in order, are the image: nothing is
/// lost, repeated or reordered.
pub proof fn lemma_chunks_rebuild_firmware(firmware: Seq<u8>)
    ensures
        joined_chunks(firmware, chunk_count_of(firmware.len())) == firmware,
{
    lemma_joined_chunks_prefix(firmware, chunk_count_of(firmware.len()));
}

} // verus!
