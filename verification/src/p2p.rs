//! Messages exchanged with remote peers over the peer-protocol bus.
//!
//! Every application-scoped message carries the id of the application it
//! belongs to, so that a node can route it to the extension registered for
//! that application.

use vstd::prelude::*;

use crate::ids::{
    AppId, Chunk, ChunkId, Container, ContainerFullId, ContainerId, ContainerInfo, Mesg, MesgId,
    Topic,
};

verus! {

/// An application-scoped message: a payload tagged with the application it
/// belongs to.
#[derive(Clone, PartialEq, Eq, Debug)]
pub struct AppMsg<T> {
    pub app: AppId,
    pub data: T,
}

/// Request for specific chunks of a container from a peer.
#[derive(Clone, PartialEq, Eq, Debug)]
pub struct ChunkPull {
    pub app: AppId,
    pub message_id: MesgId,
    pub container_id: ContainerId,
    pub chunk_ids: Vec<ChunkId>,
}

/// Delivery of one chunk of a container to a peer.
#[derive(Clone, PartialEq, Eq, Debug)]
pub struct ChunkPush {
    pub app: AppId,
    pub container_id: ContainerId,
    pub chunk_id: ChunkId,
    pub chunk: Chunk,
}

/// The peer-protocol message catalogue.
#[derive(Clone, PartialEq, Eq, Debug)]
pub enum Messages {
    /// Ask which applications the peer announces.
    ListApps,
    /// The applications a node announces.
    ActiveApps(Vec<AppId>),
    /// Ask for the topics known under an application.
    ListTopics(AppMsg<()>),
    /// The topics known under an application.
    AppTopics(AppMsg<Vec<MesgId>>),
    /// Propose a new topic.
    ProposeTopic(AppMsg<Topic>),
    /// Post a message under an application.
    Post(AppMsg<Mesg>),
    /// Ask for a message or topic.
    Read(AppMsg<MesgId>),
    /// Decline a proposed topic or message.
    Decline(AppMsg<MesgId>),
    /// Accept a proposed topic or message.
    Accept(AppMsg<MesgId>),
    /// Announce a container to the peer.
    AnnounceContainer(AppMsg<ContainerInfo>),
    /// Ask the peer for a container.
    PullContainer(AppMsg<ContainerFullId>),
    /// Deliver a container to the peer.
    PushContainer(AppMsg<Container>),
    /// Refuse to provide a container.
    Reject(AppMsg<ContainerFullId>),
    /// Ask the peer for specific chunks.
    PullChunk(ChunkPull),
    /// Deliver one chunk to the peer.
    PushChunk(ChunkPush),
}

impl Messages {
    /// Whether the content payload a peer message carries is well-formed:
    /// chunk and container sizes fit their length fields. The wire decoder
    /// enforces these bounds before a message reaches a handler.
    pub open spec fn payload_wf(&self) -> bool {
        match self {
            Messages::PushContainer(am) => am.data.wf(),
            Messages::PushChunk(cp) => cp.chunk.wf(),
            _ => true,
        }
    }
}

} // verus!
