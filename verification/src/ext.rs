//! Messages between the node and its application extensions.
//!
//! An extension registers under its application id; afterwards the node
//! routes peer messages of that application to it, and the extension asks
//! the node to move containers or forward peer messages on its behalf.

use vstd::prelude::*;

use crate::ids::{AppId, ContainerFullId, ContainerInfo, Mesg, MesgId, NodeId, Topic};
use crate::p2p::{AppMsg, Messages};
use crate::rpc::AddressedMsg;

verus! {

/// The extension-bus message catalogue.
#[derive(Clone, PartialEq, Eq, Debug)]
pub enum ExtMsg {
    /// An extension signals its application id; afterwards the node routes
    /// peer messages of that application to it.
    RegisterApp(AppId),
    /// Ask a peer for the topics it knows.
    ListTopics(AddressedMsg<()>),
    /// The topics a peer reported.
    Topics(AddressedMsg<Vec<MesgId>>),
    /// A topic proposed to or by a peer.
    ProposeTopic(AddressedMsg<Topic>),
    /// A message posted to or by a peer.
    Post(AddressedMsg<Mesg>),
    /// Ask a peer for a message or topic.
    Read(AddressedMsg<MesgId>),
    /// A peer announced a container.
    ContainerAnnouncement(AddressedMsg<ContainerInfo>),
    /// Ask the node to fetch a container from a peer.
    RetrieveContainer(AddressedMsg<ContainerFullId>),
    /// Ask the node to send a container to a peer.
    SendContainer(AddressedMsg<ContainerFullId>),
    /// Decline a peer's topic or message.
    Decline(AddressedMsg<MesgId>),
    /// Accept a peer's topic or message.
    Accept(AddressedMsg<MesgId>),
}

/// How a peer message folds into an extension message: the application id
/// is split off and the sending peer's identity attached. Messages the node
/// handles itself are handed back.
pub open spec fn storm_ext_msg_spec(m: Messages, remote_id: NodeId) -> Result<
    (AppId, ExtMsg),
    Messages,
> {
    match m {
        Messages::ListTopics(AppMsg { app, data }) => Ok(
            (app, ExtMsg::ListTopics(AddressedMsg { remote_id, data })),
        ),
        Messages::AppTopics(AppMsg { app, data }) => Ok(
            (app, ExtMsg::Topics(AddressedMsg { remote_id, data })),
        ),
        Messages::ProposeTopic(AppMsg { app, data }) => Ok(
            (app, ExtMsg::ProposeTopic(AddressedMsg { remote_id, data })),
        ),
        Messages::Post(AppMsg { app, data }) => Ok(
            (app, ExtMsg::Post(AddressedMsg { remote_id, data })),
        ),
        Messages::Read(AppMsg { app, data }) => Ok(
            (app, ExtMsg::Read(AddressedMsg { remote_id, data })),
        ),
        Messages::AnnounceContainer(AppMsg { app, data }) => Ok(
            (app, ExtMsg::ContainerAnnouncement(AddressedMsg { remote_id, data })),
        ),
        Messages::PullContainer(AppMsg { app, data }) => Ok(
            (app, ExtMsg::RetrieveContainer(AddressedMsg { remote_id, data })),
        ),
        Messages::Decline(AppMsg { app, data }) => Ok(
            (app, ExtMsg::Decline(AddressedMsg { remote_id, data })),
        ),
        Messages::Accept(AppMsg { app, data }) => Ok(
            (app, ExtMsg::Accept(AddressedMsg { remote_id, data })),
        ),
        other => Err(other),
    }
}

impl Messages {
    /// Folds a peer message into the extension message the node routes to
    /// the owning application; messages the node handles itself come back
    /// unchanged.
    pub fn storm_ext_msg(self, remote_id: NodeId) -> (r: Result<(AppId, ExtMsg), Messages>)
        ensures
            r == storm_ext_msg_spec(self, remote_id),
    {
        match self {
            Messages::ListTopics(AppMsg { app, data }) => Ok(
                (app, ExtMsg::ListTopics(AddressedMsg { remote_id, data })),
            ),
            Messages::AppTopics(AppMsg { app, data }) => Ok(
                (app, ExtMsg::Topics(AddressedMsg { remote_id, data })),
            ),
            Messages::ProposeTopic(AppMsg { app, data }) => Ok(
                (app, ExtMsg::ProposeTopic(AddressedMsg { remote_id, data })),
            ),
            Messages::Post(AppMsg { app, data }) => Ok(
                (app, ExtMsg::Post(AddressedMsg { remote_id, data })),
            ),
            Messages::Read(AppMsg { app, data }) => Ok(
                (app, ExtMsg::Read(AddressedMsg { remote_id, data })),
            ),
            Messages::AnnounceContainer(AppMsg { app, data }) => Ok(
                (app, ExtMsg::ContainerAnnouncement(AddressedMsg { remote_id, data })),
            ),
            Messages::PullContainer(AppMsg { app, data }) => Ok(
                (app, ExtMsg::RetrieveContainer(AddressedMsg { remote_id, data })),
            ),
            Messages::Decline(AppMsg { app, data }) => Ok(
                (app, ExtMsg::Decline(AddressedMsg { remote_id, data })),
            ),
            Messages::Accept(AppMsg { app, data }) => Ok(
                (app, ExtMsg::Accept(AddressedMsg { remote_id, data })),
            ),
            other => Err(other),
        }
    }
}

/// The remote peer an extension message concerns; registration carries
/// none.
pub open spec fn remote_id_spec(m: ExtMsg) -> NodeId {
    match m {
        ExtMsg::RegisterApp(_) => 0,
        ExtMsg::ListTopics(AddressedMsg { remote_id, .. }) => remote_id,
        ExtMsg::Topics(AddressedMsg { remote_id, .. }) => remote_id,
        ExtMsg::ProposeTopic(AddressedMsg { remote_id, .. }) => remote_id,
        ExtMsg::Post(AddressedMsg { remote_id, .. }) => remote_id,
        ExtMsg::Read(AddressedMsg { remote_id, .. }) => remote_id,
        ExtMsg::ContainerAnnouncement(AddressedMsg { remote_id, .. }) => remote_id,
        ExtMsg::RetrieveContainer(AddressedMsg { remote_id, .. }) => remote_id,
        ExtMsg::SendContainer(AddressedMsg { remote_id, .. }) => remote_id,
        ExtMsg::Decline(AddressedMsg { remote_id, .. }) => remote_id,
        ExtMsg::Accept(AddressedMsg { remote_id, .. }) => remote_id,
    }
}

/// The peer message that forwards an extension message to the network under
/// the given application. Registration and container commands have no peer
/// form.
pub open spec fn p2p_message_spec(m: ExtMsg, app: AppId) -> Messages {
    match m {
        ExtMsg::ListTopics(AddressedMsg { data, .. }) => Messages::ListTopics(
            AppMsg { app, data },
        ),
        ExtMsg::Topics(AddressedMsg { data, .. }) => Messages::AppTopics(AppMsg { app, data }),
        ExtMsg::ProposeTopic(AddressedMsg { data, .. }) => Messages::ProposeTopic(
            AppMsg { app, data },
        ),
        ExtMsg::Post(AddressedMsg { data, .. }) => Messages::Post(AppMsg { app, data }),
        ExtMsg::Read(AddressedMsg { data, .. }) => Messages::Read(AppMsg { app, data }),
        ExtMsg::Decline(AddressedMsg { data, .. }) => Messages::Decline(AppMsg { app, data }),
        ExtMsg::Accept(AddressedMsg { data, .. }) => Messages::Accept(AppMsg { app, data }),
        ExtMsg::ContainerAnnouncement(AddressedMsg { data, .. }) => Messages::AnnounceContainer(
            AppMsg { app, data },
        ),
        _ => Messages::ListApps,
    }
}

impl ExtMsg {
    /// Whether the message is a registration, which names no peer.
    pub open spec fn is_register(&self) -> bool {
        self matches ExtMsg::RegisterApp(_)
    }

    /// Whether the node itself must carry out the message instead of
    /// forwarding it to a peer.
    pub open spec fn is_container_command(&self) -> bool {
        ||| self matches ExtMsg::RetrieveContainer(_)
        ||| self matches ExtMsg::SendContainer(_)
    }

    /// The remote peer this message concerns.
    pub fn remote_id(&self) -> (r: NodeId)
        requires
            !self.is_register(),
        ensures
            r == remote_id_spec(*self),
    {
        match self {
            ExtMsg::RegisterApp(_) => 0,
            ExtMsg::ListTopics(AddressedMsg { remote_id, .. }) => *remote_id,
            ExtMsg::Topics(AddressedMsg { remote_id, .. }) => *remote_id,
            ExtMsg::ProposeTopic(AddressedMsg { remote_id, .. }) => *remote_id,
            ExtMsg::Post(AddressedMsg { remote_id, .. }) => *remote_id,
            ExtMsg::Read(AddressedMsg { remote_id, .. }) => *remote_id,
            ExtMsg::ContainerAnnouncement(AddressedMsg { remote_id, .. }) => *remote_id,
            ExtMsg::RetrieveContainer(AddressedMsg { remote_id, .. }) => *remote_id,
            ExtMsg::SendContainer(AddressedMsg { remote_id, .. }) => *remote_id,
            ExtMsg::Decline(AddressedMsg { remote_id, .. }) => *remote_id,
            ExtMsg::Accept(AddressedMsg { remote_id, .. }) => *remote_id,
        }
    }

    /// The peer message that forwards this one to the network under the
    /// given application.
    pub fn p2p_message(self, app: AppId) -> (r: Messages)
        requires
            !self.is_register(),
            !self.is_container_command(),
        ensures
            r == p2p_message_spec(self, app),
    {
        match self {
            ExtMsg::ListTopics(AddressedMsg { data, .. }) => Messages::ListTopics(
                AppMsg { app, data },
            ),
            ExtMsg::Topics(AddressedMsg { data, .. }) => Messages::AppTopics(AppMsg { app, data }),
            ExtMsg::ProposeTopic(AddressedMsg { data, .. }) => Messages::ProposeTopic(
                AppMsg { app, data },
            ),
            ExtMsg::Post(AddressedMsg { data, .. }) => Messages::Post(AppMsg { app, data }),
            ExtMsg::Read(AddressedMsg { data, .. }) => Messages::Read(AppMsg { app, data }),
            ExtMsg::Decline(AddressedMsg { data, .. }) => Messages::Decline(AppMsg { app, data }),
            ExtMsg::Accept(AddressedMsg { data, .. }) => Messages::Accept(AppMsg { app, data }),
            ExtMsg::ContainerAnnouncement(AddressedMsg { data, .. }) => Messages::AnnounceContainer(
                AppMsg { app, data },
            ),
            _ => Messages::ListApps,
        }
    }
}

} // verus!
