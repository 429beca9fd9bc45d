//! Addressing and the typed message buses.
//!
//! Every internal process and every remote correspondent is a logical
//! service identity, and each bus is an independent logical channel that
//! carries only the message types declared for it. Handlers in this library
//! do not perform I/O: they return envelopes — a tagged message together
//! with its bus, source and destination — and the surrounding process hands
//! each envelope to the transport.

use vstd::prelude::*;

use crate::ext::ExtMsg;
use crate::ids::{AppId, Chunk, ChunkId, ClientId, Container, ContainerId, DaemonId, NodeId};
use crate::p2p;
use crate::rpc::{AddressedMsg, AppContainer, Failure, ProgressNote, RadioMsg, RpcFailureCode,
    RpcMsg};

verus! {

/// The application id under which chat rides.
pub const STORM_APP_CHAT: AppId = 0x0001;

/// The tag of the node's own service on the peer-message bus.
pub const MSG_APP_STORM: u16 = 0x0024;

/// The buses multiplexed over the transport. Each carries only the message
/// types declared for it.
#[derive(Clone, Copy, PartialEq, Eq, Hash, Debug, Structural)]
pub enum ServiceBus {
    /// Application-extension messaging.
    Storm,
    /// Client requests and responses.
    Rpc,
    /// Control messages between the orchestrator and its workers.
    Ctl,
    /// The peer-protocol message bus.
    Msg,
    /// The publish/subscribe bus of the chat relay.
    Chat,
}

/// The logical identity of a message source or destination.
#[derive(Clone, Copy, PartialEq, Eq, Hash, Debug, Structural)]
pub enum ServiceId {
    /// A service registered on the peer-message bus under an application
    /// tag; the orchestrator itself registers under `MSG_APP_STORM`.
    MsgApp(u16),
    /// A channel-scoped application on the peer-message bus.
    ChannelApp(u16),
    /// An application extension.
    StormApp(AppId),
    /// A connected client.
    Client(ClientId),
    /// The peer-network daemon.
    Lnp,
    /// A remote peer.
    Peer(NodeId),
    /// A transfer-worker instance.
    Transfer(DaemonId),
    /// A catch-all registered service, named by a numeric handle.
    Other(u64),
}

impl ServiceId {
    /// The orchestrator's own identity.
    pub fn stormd() -> (r: ServiceId)
        ensures
            r == ServiceId::MsgApp(MSG_APP_STORM),
    {
        ServiceId::MsgApp(MSG_APP_STORM)
    }

    /// The chat relay's identity.
    pub fn chatd() -> (r: ServiceId)
        ensures
            r == ServiceId::StormApp(STORM_APP_CHAT),
    {
        ServiceId::StormApp(STORM_APP_CHAT)
    }
}

/// A payload addressed to a remote peer on behalf of an optional local
/// client, so that progress can be reported back to that client.
#[derive(Clone, PartialEq, Eq, Debug)]
pub struct AddressedClientMsg<T> {
    pub remote_id: NodeId,
    pub client_id: Option<ClientId>,
    pub data: T,
}

impl<T> AddressedClientMsg<T> {
    /// Readdresses an application-scoped message to its peer on behalf of a
    /// client.
    pub fn with(app_msg: p2p::AppMsg<T>, remote_peer: NodeId, client_id: ClientId) -> (r:
        AddressedClientMsg<T>)
        ensures
            r == (AddressedClientMsg {
                remote_id: remote_peer,
                client_id: Some(client_id),
                data: app_msg.data,
            }),
    {
        AddressedClientMsg { remote_id: remote_peer, client_id: Some(client_id), data: app_msg.data }
    }
}

/// A request to push specific chunks of a container to a peer.
#[derive(Clone, PartialEq, Eq, Debug)]
pub struct ChunkSend {
    pub storm_app: AppId,
    pub container_id: ContainerId,
    pub chunk_ids: Vec<ChunkId>,
}

/// Control messages between the orchestrator and its workers.
#[derive(Clone, PartialEq, Eq, Debug)]
pub enum CtlMsg {
    /// A worker registers itself once connected.
    Hello,
    /// Fetch a container from a remote peer.
    GetContainer(AddressedClientMsg<AppContainer>),
    /// Announce a stored container to a remote peer.
    AnnounceContainer(AddressedClientMsg<AppContainer>),
    /// Send a stored container to a remote peer.
    SendContainer(AddressedClientMsg<AppContainer>),
    /// A container payload arrived and must be processed.
    ProcessContainer(Container),
    /// A chunk payload arrived and must be processed.
    ProcessChunk(Chunk),
    /// Send stored chunks to a remote peer.
    SendChunks(AddressedMsg<ChunkSend>),
    /// A worker finished its task.
    ProcessingComplete,
    /// A worker gave its task up.
    ProcessingFailed,
}

impl CtlMsg {
    /// Whether the content payload a control message carries is
    /// well-formed: chunk and container sizes fit their length fields. The
    /// wire decoder enforces these bounds before a message reaches a
    /// handler.
    pub open spec fn payload_wf(&self) -> bool {
        match self {
            CtlMsg::ProcessContainer(c) => c.wf(),
            CtlMsg::ProcessChunk(ch) => ch.wf(),
            _ => true,
        }
    }
}

/// One message on one bus, with explicit source and destination.
#[derive(Clone, PartialEq, Eq, Debug)]
pub enum BusMsg {
    /// A peer-protocol message.
    Bifrost(p2p::Messages),
    /// A client request or response.
    Rpc(RpcMsg),
    /// An extension message.
    Storm(ExtMsg),
    /// A control message.
    Ctl(CtlMsg),
    /// A chat broadcast.
    Chat(RadioMsg),
}

impl BusMsg {
    /// Whether the content payload a bus message carries is well-formed.
    pub open spec fn payload_wf(&self) -> bool {
        match self {
            BusMsg::Ctl(m) => m.payload_wf(),
            BusMsg::Bifrost(m) => m.payload_wf(),
            _ => true,
        }
    }
}

/// A message ready to be handed to the transport: the bus it travels on,
/// who sends it, and whom it is for.
#[derive(Clone, PartialEq, Eq, Debug)]
pub struct Envelope {
    pub bus: ServiceBus,
    pub source: ServiceId,
    pub dest: ServiceId,
    pub msg: BusMsg,
}

/// The daemons the orchestrator can launch.
#[derive(Clone, Copy, PartialEq, Eq, Hash, Debug, Structural)]
pub enum Daemon {
    /// A transfer worker.
    Transferd,
    /// The chat relay.
    Chatd,
    /// The download client daemon.
    Downpourd,
}

impl Daemon {
    /// The name of the binary that runs this daemon.
    pub fn bin_name(&self) -> (r: &'static str)
        ensures
            *self == Daemon::Transferd ==> r@ == "transferd"@,
            *self == Daemon::Chatd ==> r@ == "chatd"@,
            *self == Daemon::Downpourd ==> r@ == "downpourd"@,
    {
        match self {
            Daemon::Transferd => "transferd",
            Daemon::Chatd => "chatd",
            Daemon::Downpourd => "downpourd",
        }
    }
}

/// What a handler asks the surrounding process to do, in order. Store
/// writes need no action of their own: a worker's contract states what its
/// store mirror now holds, and the surrounding process repeats the write
/// against the real store service.
#[derive(Clone, PartialEq, Eq, Debug)]
pub enum Action {
    /// Hand an envelope to the transport.
    Send(Envelope),
    /// Launch a daemon.
    Launch(Daemon),
}

/// Addresses a peer-protocol message to a remote peer.
pub fn send_p2p(source: ServiceId, remote_id: NodeId, message: p2p::Messages) -> (e: Envelope)
    ensures
        e == (Envelope {
            bus: ServiceBus::Msg,
            source,
            dest: ServiceId::Peer(remote_id),
            msg: BusMsg::Bifrost(message),
        }),
{
    Envelope {
        bus: ServiceBus::Msg,
        source,
        dest: ServiceId::Peer(remote_id),
        msg: BusMsg::Bifrost(message),
    }
}

/// Addresses a response to a connected client.
pub fn send_rpc(source: ServiceId, client_id: ClientId, message: RpcMsg) -> (e: Envelope)
    ensures
        e == (Envelope {
            bus: ServiceBus::Rpc,
            source,
            dest: ServiceId::Client(client_id),
            msg: BusMsg::Rpc(message),
        }),
{
    Envelope {
        bus: ServiceBus::Rpc,
        source,
        dest: ServiceId::Client(client_id),
        msg: BusMsg::Rpc(message),
    }
}

/// Addresses a control message to another daemon.
pub fn send_ctl(source: ServiceId, service_id: ServiceId, message: CtlMsg) -> (e: Envelope)
    ensures
        e == (Envelope {
            bus: ServiceBus::Ctl,
            source,
            dest: service_id,
            msg: BusMsg::Ctl(message),
        }),
{
    Envelope { bus: ServiceBus::Ctl, source, dest: service_id, msg: BusMsg::Ctl(message) }
}

/// Addresses an extension message to an application, or to the orchestrator
/// when no application is named.
pub fn send_ext(source: ServiceId, app_id: Option<AppId>, message: ExtMsg) -> (e: Envelope)
    ensures
        e == (Envelope {
            bus: ServiceBus::Storm,
            source,
            dest: match app_id {
                Some(app) => ServiceId::StormApp(app),
                None => ServiceId::MsgApp(MSG_APP_STORM),
            },
            msg: BusMsg::Storm(message),
        }),
{
    let dest = match app_id {
        Some(app) => ServiceId::StormApp(app),
        None => ServiceId::stormd(),
    };
    Envelope { bus: ServiceBus::Storm, source, dest, msg: BusMsg::Storm(message) }
}

/// Addresses a chat broadcast to the subscription bus.
pub fn send_radio(source: ServiceId, message: RadioMsg) -> (e: Envelope)
    ensures
        e == (Envelope {
            bus: ServiceBus::Chat,
            source,
            dest: ServiceId::MsgApp(MSG_APP_STORM),
            msg: BusMsg::Chat(message),
        }),
{
    Envelope {
        bus: ServiceBus::Chat,
        source,
        dest: ServiceId::stormd(),
        msg: BusMsg::Chat(message),
    }
}

/// Addresses a peer-protocol message whose delivery outcome is reported to
/// an optional client: the follow-up report comes from
/// `report_send_outcome` once the transport has accepted or refused the
/// envelope.
pub fn send_p2p_reporting_client(
    source: ServiceId,
    remote_id: NodeId,
    message: p2p::Messages,
) -> (e: Envelope)
    ensures
        e == (Envelope {
            bus: ServiceBus::Msg,
            source,
            dest: ServiceId::Peer(remote_id),
            msg: BusMsg::Bifrost(message),
        }),
{
    send_p2p(source, remote_id, message)
}

/// What to tell the initiating client once the transport reported whether a
/// peer-directed send went through: the note on success, a transport
/// failure otherwise; a transfer with no client gets no report.
pub fn report_send_outcome(
    source: ServiceId,
    client_id: Option<ClientId>,
    note: Option<ProgressNote>,
    delivered: bool,
) -> (r: Option<Envelope>)
    ensures
        r == match (client_id, delivered) {
            (None, _) => None::<Envelope>,
            (Some(c), true) => match note {
                Some(n) => Some(
                    send_rpc_spec(source, c, RpcMsg::Progress(n)),
                ),
                None => None,
            },
            (Some(c), false) => Some(
                send_rpc_spec(source, c, RpcMsg::Failure(Failure { code: RpcFailureCode::Transport })),
            ),
        },
{
    match client_id {
        None => None,
        Some(c) => {
            if delivered {
                match note {
                    Some(n) => Some(send_rpc(source, c, RpcMsg::Progress(n))),
                    None => None,
                }
            } else {
                Some(send_rpc(source, c, RpcMsg::Failure(Failure { code: RpcFailureCode::Transport })))
            }
        }
    }
}

/// The envelope that `send_rpc` builds.
pub open spec fn send_rpc_spec(source: ServiceId, client_id: ClientId, message: RpcMsg) -> Envelope {
    Envelope {
        bus: ServiceBus::Rpc,
        source,
        dest: ServiceId::Client(client_id),
        msg: BusMsg::Rpc(message),
    }
}

/// The envelope that `send_ctl` builds.
pub open spec fn send_ctl_spec(source: ServiceId, service_id: ServiceId, message: CtlMsg) -> Envelope {
    Envelope { bus: ServiceBus::Ctl, source, dest: service_id, msg: BusMsg::Ctl(message) }
}

/// The envelope that `send_p2p` builds.
pub open spec fn send_p2p_spec(source: ServiceId, remote_id: NodeId, message: p2p::Messages) -> Envelope {
    Envelope {
        bus: ServiceBus::Msg,
        source,
        dest: ServiceId::Peer(remote_id),
        msg: BusMsg::Bifrost(message),
    }
}

} // verus!
