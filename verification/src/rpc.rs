//! Client-facing request/response messages and their failure taxonomy.

use vstd::prelude::*;

use crate::ids::{AppId, ChunkId, ContainerFullId, NodeId};
use crate::p2p::AppMsg;

verus! {

/// A payload tagged with the remote peer it concerns.
#[derive(Clone, PartialEq, Eq, Debug)]
pub struct AddressedMsg<T> {
    pub remote_id: NodeId,
    pub data: T,
}

impl<T> AddressedMsg<T> {
    /// Readdresses an application-scoped message to the peer it came from.
    pub fn with(app_msg: AppMsg<T>, remote_peer: NodeId) -> (r: AddressedMsg<T>)
        ensures
            r == (AddressedMsg { remote_id: remote_peer, data: app_msg.data }),
    {
        AddressedMsg { remote_id: remote_peer, data: app_msg.data }
    }
}

/// A container named together with the application it belongs to.
#[derive(Clone, Copy, PartialEq, Eq, Debug)]
pub struct AppContainer {
    pub storm_app: AppId,
    pub container_id: ContainerFullId,
}

/// Numeric failure codes reported to clients.
#[derive(Clone, Copy, PartialEq, Eq, Hash, Debug, Structural)]
pub enum FailureCode {
    /// Catch-all.
    Unknown,
    /// A payload could not be encoded or decoded.
    Encoding,
    /// A service could not be launched.
    Launch,
    /// A bus could not deliver a message.
    Esb,
    /// A request arrived on a bus that does not carry it.
    UnexpectedRequest,
    /// The store collaborator failed.
    Store,
    /// An instruction did not match the worker's phase.
    TransferAutomation,
    /// A requested container is not in the store.
    UnknownContainer,
}

impl FailureCode {
    /// The numeric code sent on the wire for this failure.
    pub fn as_code(&self) -> (r: u16)
        ensures
            r == self.code_spec(),
    {
        match self {
            FailureCode::Unknown => 0xFFF,
            FailureCode::Encoding => 0x02,
            FailureCode::Launch => 0x03,
            FailureCode::Esb => 0x10,
            FailureCode::UnexpectedRequest => 0x11,
            FailureCode::Store => 0x12,
            FailureCode::TransferAutomation => 0x20,
            FailureCode::UnknownContainer => 0x21,
        }
    }

    /// The numeric code of each failure.
    pub open spec fn code_spec(&self) -> u16 {
        match self {
            FailureCode::Unknown => 0xFFF,
            FailureCode::Encoding => 0x02,
            FailureCode::Launch => 0x03,
            FailureCode::Esb => 0x10,
            FailureCode::UnexpectedRequest => 0x11,
            FailureCode::Store => 0x12,
            FailureCode::TransferAutomation => 0x20,
            FailureCode::UnknownContainer => 0x21,
        }
    }

    /// Reads a failure code back from its wire form; codes are not
    /// distinguished on the way in, so every value reads as the catch-all.
    pub fn from_code(value: u16) -> (r: FailureCode)
        ensures
            r == FailureCode::Unknown,
    {
        let _ = value;
        FailureCode::Unknown
    }
}

/// Where a failure was detected: in presentation (decoding), in transport,
/// or inside this node (carrying the node's own code).
#[derive(Clone, Copy, PartialEq, Eq, Hash, Debug, Structural)]
pub enum RpcFailureCode {
    Presentation,
    Transport,
    Other(FailureCode),
}

/// A failure response to a client.
#[derive(Clone, Copy, PartialEq, Eq, Debug)]
pub struct Failure {
    pub code: RpcFailureCode,
}

/// A progress note reported to the client that initiated a transfer.
#[derive(Clone, Copy, PartialEq, Eq, Debug)]
pub enum ProgressNote {
    /// The container was requested from the remote peer.
    RequestedContainer,
    /// The container's description arrived.
    ContainerReceived,
    /// So many chunks are new and were requested.
    RetrievingChunks(usize),
    /// One chunk arrived.
    ReceivedChunk(ChunkId),
    /// The request was handed to a transfer worker.
    RequestForwarded,
    /// A new transfer worker was started for the request.
    WorkerStarted,
}

/// Client-facing requests and responses.
#[derive(Clone, PartialEq, Eq, Debug)]
pub enum RpcMsg {
    /// Send a chat message to the remote peer.
    SendChat(AddressedMsg<Vec<u8>>),
    /// Announce and send a container to the remote peer.
    SendContainer(AddressedMsg<AppContainer>),
    /// Fetch a container from the remote peer.
    GetContainer(AddressedMsg<AppContainer>),
    /// Store a file's bytes as a container.
    StoreFile(AddressedMsg<Vec<u8>>),
    /// Retrieve a stored container's bytes.
    RetrieveFile(AddressedMsg<Vec<u8>>),
    /// A progress report.
    Progress(ProgressNote),
    /// The request finished.
    Success,
    /// The request failed.
    Failure(Failure),
}

/// Chat messages broadcast to subscribed clients.
#[derive(Clone, PartialEq, Eq, Debug)]
pub enum RadioMsg {
    /// A chat message received from a peer.
    Received(AddressedMsg<Vec<u8>>),
}

/// What a client reports of a server answer that did not carry the wanted
/// payload.
#[derive(Clone, Copy, PartialEq, Eq, Debug)]
pub enum Error {
    /// The node reported a failure with one of its own codes.
    LocalFailure { code: FailureCode },
    /// The failure was detected outside this node's own codes.
    RemoteFailure { code: RpcFailureCode },
    /// The server answered with a message the client did not expect.
    UnexpectedServerResponse,
}

impl RpcMsg {
    /// Turns a failure response into the client's error, passing every
    /// other message through.
    pub fn failure_to_error(self) -> (r: Result<RpcMsg, Error>)
        ensures
            r == match self {
                RpcMsg::Failure(Failure { code: RpcFailureCode::Other(code) }) => Err::<
                    RpcMsg,
                    Error,
                >(Error::LocalFailure { code }),
                RpcMsg::Failure(failure) => Err(Error::RemoteFailure { code: failure.code }),
                msg => Ok(msg),
            },
    {
        match self {
            RpcMsg::Failure(Failure { code: RpcFailureCode::Other(code) }) => Err(
                Error::LocalFailure { code },
            ),
            RpcMsg::Failure(failure) => Err(Error::RemoteFailure { code: failure.code }),
            msg => Ok(msg),
        }
    }
}

impl RadioMsg {
    /// The client's view of a broadcast chat message: the text body when it
    /// came from the awaited peer, an error otherwise.
    pub fn chat_recv(self, from_remote_id: NodeId) -> (r: Result<Vec<u8>, Error>)
        ensures
            r == match self {
                RadioMsg::Received(AddressedMsg { remote_id, data }) => if remote_id
                    == from_remote_id {
                    Ok::<Vec<u8>, Error>(data)
                } else {
                    Err(Error::UnexpectedServerResponse)
                },
            },
    {
        match self {
            RadioMsg::Received(AddressedMsg { remote_id, data }) => {
                if remote_id == from_remote_id {
                    Ok(data)
                } else {
                    Err(Error::UnexpectedServerResponse)
                }
            }
        }
    }
}

} // verus!
