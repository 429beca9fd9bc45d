//! Content-derived identifiers.
//!
//! The identifier of a chunk is a digest of its bytes, computed by the
//! `storm` crate; equal content therefore yields an equal id. A container's
//! identifier is the digest of a canonical byte encoding of its header and
//! chunk index, so it too is a function of the container's content alone.

use vstd::prelude::*;

use crate::ids::{Chunk, ChunkId, Container, ContainerId, ContainerV, CHUNK_MAX_LEN};

verus! {

/// The digest that the content-addressing scheme assigns to a byte string.
pub uninterp spec fn chunk_digest_of(data: Seq<u8>) -> Seq<u8>;

/// Relies on storm-core's `Chunk::chunk_id` (a tagless SHA-256 commitment):
/// the digest is a function of the chunk's bytes alone and is 32 bytes long.
/// `storm::Chunk::try_from` only refuses buffers over the 24-bit length
/// bound, which the precondition rules out.
#[verifier::external_body]
fn digest_bytes(data: &Vec<u8>) -> (r: [u8; 32])
    requires
        data@.len() <= CHUNK_MAX_LEN,
    ensures
        r@ == chunk_digest_of(data@),
{
    let chunk = storm::Chunk::try_from(data).expect("chunk length fits the 24-bit bound");
    let id = chunk.chunk_id();
    <[u8; 32]>::try_from(id.as_ref()).expect("a digest is 32 bytes")
}

impl Chunk {
    /// The content-derived identifier of this chunk.
    pub fn chunk_id(&self) -> (r: ChunkId)
        requires
            self.wf(),
        ensures
            r@ == chunk_digest_of(self@),
    {
        ChunkId { bytes: digest_bytes(&self.data) }
    }
}

/// Two little-endian bytes of a 16-bit value.
pub open spec fn le16(v: u16) -> Seq<u8> {
    seq![(v & 0xff) as u8, ((v >> 8) & 0xff) as u8]
}

/// Four little-endian bytes of a 32-bit value.
pub open spec fn le32(v: u32) -> Seq<u8> {
    le16((v & 0xffff) as u16) + le16(((v >> 16) & 0xffff) as u16)
}

/// Eight little-endian bytes of a 64-bit value.
pub open spec fn le64(v: u64) -> Seq<u8> {
    le32((v & 0xffff_ffff) as u32) + le32(((v >> 32) & 0xffff_ffff) as u32)
}

/// The digests of a chunk index laid out one after another.
pub open spec fn flat_ids(ids: Seq<ChunkId>) -> Seq<u8>
    decreases ids.len(),
{
    if ids.len() == 0 {
        Seq::empty()
    } else {
        flat_ids(ids.drop_last()) + ids.last()@
    }
}

/// Each digest contributes its 32 bytes to the flattened index.
pub proof fn lemma_flat_ids_len(ids: Seq<ChunkId>)
    ensures
        flat_ids(ids).len() == 32 * ids.len(),
    decreases ids.len(),
{
    if ids.len() > 0 {
        lemma_flat_ids_len(ids.drop_last());
    }
}

/// Canonical byte encoding of a container: header fields and the chunk
/// index, each length-prefixed, so the encoding is a function of the
/// container's content.
pub open spec fn container_encoding(c: ContainerV) -> Seq<u8> {
    le16(c.header.version) + le16(c.header.mime.len() as u16) + c.header.mime
        + le16(c.header.info.len() as u16) + c.header.info + le64(c.header.size)
        + le32(c.chunks.len() as u32) + flat_ids(c.chunks)
}

/// The content-derived identifier of a container: the digest of its
/// canonical encoding.
pub open spec fn container_id_of(c: ContainerV) -> Seq<u8> {
    chunk_digest_of(container_encoding(c))
}

fn push_le16(buf: &mut Vec<u8>, v: u16)
    ensures
        final(buf)@ == old(buf)@ + le16(v),
{
    buf.push((v & 0xff) as u8);
    buf.push(((v >> 8) & 0xff) as u8);
    assert(buf@ =~= old(buf)@ + le16(v));
}

fn push_le32(buf: &mut Vec<u8>, v: u32)
    ensures
        final(buf)@ == old(buf)@ + le32(v),
{
    push_le16(buf, (v & 0xffff) as u16);
    push_le16(buf, ((v >> 16) & 0xffff) as u16);
    assert(buf@ =~= old(buf)@ + le32(v));
}

fn push_le64(buf: &mut Vec<u8>, v: u64)
    ensures
        final(buf)@ == old(buf)@ + le64(v),
{
    push_le32(buf, (v & 0xffff_ffff) as u32);
    push_le32(buf, ((v >> 32) & 0xffff_ffff) as u32);
    assert(buf@ =~= old(buf)@ + le64(v));
}

fn push_bytes(buf: &mut Vec<u8>, data: &Vec<u8>)
    requires
        old(buf)@.len() + data@.len() <= usize::MAX,
    ensures
        final(buf)@ == old(buf)@ + data@,
{
    let mut i: usize = 0;
    while i < data.len()
        invariant
            i <= data@.len(),
            buf@ == old(buf)@ + data@.take(i as int),
            buf@.len() == old(buf)@.len() + i,
            old(buf)@.len() + data@.len() <= usize::MAX,
        decreases data@.len() - i,
    {
        buf.push(data[i]);
        assert(buf@ =~= old(buf)@ + data@.take(i + 1 as int));
        i = i + 1;
    }
    assert(data@.take(data@.len() as int) =~= data@);
}

fn push_ids(buf: &mut Vec<u8>, ids: &Vec<ChunkId>)
    requires
        old(buf)@.len() + 32 * ids@.len() <= usize::MAX,
    ensures
        final(buf)@ == old(buf)@ + flat_ids(ids@),
{
    let mut i: usize = 0;
    while i < ids.len()
        invariant
            i <= ids@.len(),
            buf@ == old(buf)@ + flat_ids(ids@.take(i as int)),
            buf@.len() == old(buf)@.len() + 32 * i,
            old(buf)@.len() + 32 * ids@.len() <= usize::MAX,
        decreases ids@.len() - i,
    {
        proof {
            lemma_flat_ids_len(ids@.take(i as int));
            lemma_flat_ids_len(ids@.take(i + 1));
        }
        let mut j: usize = 0;
        let ghost mid = buf@;
        while j < 32
            invariant
                j <= 32,
                i < ids@.len(),
                buf@ == mid + ids@[i as int]@.take(j as int),
                buf@.len() == mid.len() + j,
                mid.len() + 32 * ids@.len() <= usize::MAX + 32 * i,
                mid.len() <= usize::MAX - 32,
            decreases 32 - j,
        {
            buf.push(ids[i].bytes[j]);
            assert(buf@ =~= mid + ids@[i as int]@.take(j + 1 as int));
            j = j + 1;
        }
        assert(ids@[i as int]@.take(32) =~= ids@[i as int]@);
        proof {
            lemma_flat_take_one_more(ids@, i as int);
        }
        assert(buf@ =~= old(buf)@ + flat_ids(ids@.take(i + 1)));
        i = i + 1;
    }
    assert(ids@.take(ids@.len() as int) =~= ids@);
}

/// Extending the flattened prefix by one index entry appends its digest.
proof fn lemma_flat_take_one_more(ids: Seq<ChunkId>, i: int)
    requires
        0 <= i < ids.len(),
    ensures
        flat_ids(ids.take(i + 1)) == flat_ids(ids.take(i)) + ids[i]@,
{
    assert(ids.take(i + 1).drop_last() =~= ids.take(i));
    assert(ids.take(i + 1).last() == ids[i]);
}

/// Builds the canonical byte encoding of a well-formed container.
pub fn encode_container(c: &Container) -> (r: Vec<u8>)
    requires
        c.wf(),
    ensures
        r@ == container_encoding(c@),
        r@.len() <= CHUNK_MAX_LEN,
{
    proof {
        lemma_flat_ids_len(c.chunks@);
    }
    let mut buf: Vec<u8> = Vec::new();
    push_le16(&mut buf, c.header.version);
    push_le16(&mut buf, c.header.mime.len() as u16);
    push_bytes(&mut buf, &c.header.mime);
    push_le16(&mut buf, c.header.info.len() as u16);
    push_bytes(&mut buf, &c.header.info);
    push_le64(&mut buf, c.header.size);
    push_le32(&mut buf, c.chunks.len() as u32);
    push_ids(&mut buf, &c.chunks);
    assert(buf@ =~= container_encoding(c@));
    buf
}

impl Container {
    /// The content-derived identifier of this container.
    pub fn container_id(&self) -> (r: ContainerId)
        requires
            self.wf(),
        ensures
            r@ == container_id_of(self@),
    {
        let encoded = encode_container(self);
        ContainerId { bytes: digest_bytes(&encoded) }
    }
}

} // verus!
