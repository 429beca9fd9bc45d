//! Identifiers and content data model.
//!
//! Chunk and container identifiers are content-derived digests carried as
//! fixed-size byte strings; peers, clients, workers and applications are
//! identified by plain numbers. A container describes a bundle of chunks by
//! a header and an ordered list of chunk ids; a chunk is a bounded immutable
//! byte buffer whose length fits a 24-bit field.

use vstd::prelude::*;

verus! {

/// Identifier of a transfer-worker daemon instance.
pub type DaemonId = u64;

/// Identifier of a connected client.
pub type ClientId = u64;

/// Identifier of an application extension.
pub type AppId = u16;

/// Identity of a remote peer node.
pub type NodeId = u64;

/// Number of bytes in a content digest.
pub const DIGEST_LEN: usize = 32;

/// Largest number of bytes a single chunk may carry: the chunk length must
/// fit a 24-bit field.
pub const CHUNK_MAX_LEN: usize = 0xFF_FFFF;

/// Largest number of chunk ids a container may list: the canonical
/// encoding of the header and chunk index must itself fit one chunk.
pub const CONTAINER_MAX_CHUNKS: usize = 0x7_0000;

/// Content-derived identifier of a chunk: a digest of the chunk's bytes.
#[derive(Clone, Copy, PartialEq, Eq, Hash, Debug)]
pub struct ChunkId {
    pub bytes: [u8; 32],
}

impl View for ChunkId {
    type V = Seq<u8>;

    open spec fn view(&self) -> Seq<u8> {
        self.bytes@
    }
}

impl ChunkId {
    pub fn eq_id(&self, other: &ChunkId) -> (r: bool)
        ensures
            r == (self@ == other@),
    {
        let mut i: usize = 0;
        while i < 32
            invariant
                i <= 32,
                forall|j: int| 0 <= j < i ==> self.bytes@[j] == other.bytes@[j],
            decreases 32 - i,
        {
            if self.bytes[i] != other.bytes[i] {
                assert(self@[i as int] != other@[i as int]);
                return false;
            }
            i = i + 1;
        }
        assert(self@ =~= other@);
        true
    }
}

/// Content-derived identifier of a container: a digest of the container's
/// header and chunk index.
#[derive(Clone, Copy, PartialEq, Eq, Hash, Debug)]
pub struct ContainerId {
    pub bytes: [u8; 32],
}

impl View for ContainerId {
    type V = Seq<u8>;

    open spec fn view(&self) -> Seq<u8> {
        self.bytes@
    }
}

impl ContainerId {
    pub fn eq_id(&self, other: &ContainerId) -> (r: bool)
        ensures
            r == (self@ == other@),
            r == (*self == *other),
    {
        let mut i: usize = 0;
        while i < 32
            invariant
                i <= 32,
                forall|j: int| 0 <= j < i ==> self.bytes@[j] == other.bytes@[j],
            decreases 32 - i,
        {
            if self.bytes[i] != other.bytes[i] {
                assert(self@[i as int] != other@[i as int]);
                return false;
            }
            i = i + 1;
        }
        assert(self@ =~= other@);
        assert(self.bytes =~= other.bytes);
        true
    }
}

/// Identifier of the message that introduced a container, used to correlate
/// a container back to the request that produced it.
#[derive(Clone, Copy, PartialEq, Eq, Hash, Debug)]
pub struct MesgId {
    pub bytes: [u8; 32],
}

impl View for MesgId {
    type V = Seq<u8>;

    open spec fn view(&self) -> Seq<u8> {
        self.bytes@
    }
}

/// A container id paired with the id of the message that introduced it.
#[derive(Clone, Copy, PartialEq, Eq, Hash, Debug)]
pub struct ContainerFullId {
    pub message_id: MesgId,
    pub container_id: ContainerId,
}

/// A bounded-size immutable content-addressed byte block.
#[derive(Clone, PartialEq, Eq, Hash, Debug)]
pub struct Chunk {
    pub data: Vec<u8>,
}

impl View for Chunk {
    type V = Seq<u8>;

    open spec fn view(&self) -> Seq<u8> {
        self.data@
    }
}

impl Chunk {
    /// A chunk's length fits the 24-bit length field.
    pub open spec fn wf(&self) -> bool {
        self@.len() <= CHUNK_MAX_LEN
    }

    /// Builds a chunk from a byte buffer, refusing one too large for the
    /// 24-bit length field.
    pub fn with(data: Vec<u8>) -> (r: Option<Chunk>)
        ensures
            match r {
                Some(c) => c@ == data@ && c.wf(),
                None => data@.len() > CHUNK_MAX_LEN,
            },
    {
        if data.len() <= CHUNK_MAX_LEN {
            Some(Chunk { data })
        } else {
            None
        }
    }

    /// Copies the chunk; the copy carries the same bytes.
    pub fn duplicate(&self) -> (r: Chunk)
        ensures
            r@ == self@,
    {
        let data = self.data.clone();
        assert(data@ =~= self.data@);
        Chunk { data }
    }
}

/// Ghost form of a container header: what the header states, with byte
/// buffers abstracted to sequences.
pub struct HeaderV {
    pub version: u16,
    pub mime: Seq<u8>,
    pub info: Seq<u8>,
    pub size: u64,
}

/// Header of a container: version, MIME type, free-text description and the
/// total content size in bytes.
#[derive(Clone, PartialEq, Eq, Hash, Debug)]
pub struct ContainerHeader {
    pub version: u16,
    pub mime: Vec<u8>,
    pub info: Vec<u8>,
    pub size: u64,
}

impl View for ContainerHeader {
    type V = HeaderV;

    open spec fn view(&self) -> HeaderV {
        HeaderV { version: self.version, mime: self.mime@, info: self.info@, size: self.size }
    }
}

impl ContainerHeader {
    /// The MIME and info strings fit their 16-bit length fields.
    pub open spec fn wf(&self) -> bool {
        &&& self.mime@.len() <= 0xFFFF
        &&& self.info@.len() <= 0xFFFF
    }

    /// Copies the header; the copy states the same.
    pub fn duplicate(&self) -> (r: ContainerHeader)
        ensures
            r@ == self@,
    {
        let mime = self.mime.clone();
        let info = self.info.clone();
        assert(mime@ =~= self.mime@);
        assert(info@ =~= self.info@);
        ContainerHeader { version: self.version, mime, info, size: self.size }
    }
}

/// Ghost form of a container: its header and the digests it lists.
pub struct ContainerV {
    pub header: HeaderV,
    pub chunks: Seq<ChunkId>,
}

/// A container: a header plus the ordered list of ids of its chunks.
#[derive(Clone, PartialEq, Eq, Hash, Debug)]
pub struct Container {
    pub header: ContainerHeader,
    pub chunks: Vec<ChunkId>,
}

impl View for Container {
    type V = ContainerV;

    open spec fn view(&self) -> ContainerV {
        ContainerV { header: self.header@, chunks: self.chunks@ }
    }
}

impl Container {
    /// Copies the container; the copy describes the same content.
    pub fn duplicate(&self) -> (r: Container)
        ensures
            r@ == self@,
    {
        let mut chunks: Vec<ChunkId> = Vec::new();
        let mut i: usize = 0;
        while i < self.chunks.len()
            invariant
                i <= self.chunks@.len(),
                chunks@ == self.chunks@.take(i as int),
            decreases self.chunks@.len() - i,
        {
            chunks.push(self.chunks[i]);
            assert(chunks@ =~= self.chunks@.take(i + 1));
            i = i + 1;
        }
        assert(self.chunks@.take(self.chunks@.len() as int) =~= self.chunks@);
        Container { header: self.header.duplicate(), chunks }
    }

    /// The header is well-formed and the chunk index fits its 19-bit length
    /// field.
    pub open spec fn wf(&self) -> bool {
        &&& self.header.wf()
        &&& self.chunks@.len() <= CONTAINER_MAX_CHUNKS
    }
}

/// Announcement form of a container: its header together with its full id.
#[derive(Clone, PartialEq, Eq, Hash, Debug)]
pub struct ContainerInfo {
    pub header: ContainerHeader,
    pub id: ContainerFullId,
}

/// A chat-style message riding alongside content: a parent reference, an
/// opaque body and ids of attached containers.
#[derive(Clone, PartialEq, Eq, Hash, Debug)]
pub struct Mesg {
    pub parent_id: MesgId,
    pub body: Vec<u8>,
    pub container_ids: Vec<ContainerId>,
}

/// A proposed discussion topic: an opaque body and ids of attached
/// containers.
#[derive(Clone, PartialEq, Eq, Hash, Debug)]
pub struct Topic {
    pub body: Vec<u8>,
    pub container_ids: Vec<ContainerId>,
}

} // verus!
