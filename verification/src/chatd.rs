//! The chat relay: a thin demonstration of the routing layer.
//!
//! Chat text rides the same bus primitives as content: a client's message
//! is wrapped into a post on the extension bus, and a peer's post is
//! broadcast to subscribed clients on the publish/subscribe bus. The relay
//! holds no state of its own; the text body is carried as opaque bytes and
//! framed at the client boundary.

use vstd::prelude::*;

use crate::bus::{
    send_ctl, send_ctl_spec, send_ext, send_radio, Action, BusMsg, CtlMsg, Envelope, ServiceBus,
    ServiceId, MSG_APP_STORM, STORM_APP_CHAT,
};
use crate::error::DaemonError;
use crate::ext::ExtMsg;
use crate::ids::{ClientId, Mesg, MesgId};
use crate::rpc::{AddressedMsg, RadioMsg, RpcMsg};

verus! {

/// The chat relay service.
pub struct Runtime {}

impl Runtime {
    /// A fresh relay.
    pub fn init() -> (r: Runtime) {
        Runtime {  }
    }

    /// The relay's own address.
    pub fn identity(&self) -> (r: ServiceId)
        ensures
            r == ServiceId::StormApp(STORM_APP_CHAT),
    {
        ServiceId::chatd()
    }

    /// The registration the relay sends to the orchestrator once its buses
    /// are connected.
    pub fn on_ready(&self) -> (e: Envelope)
        ensures
            e == send_ctl_spec(
                ServiceId::StormApp(STORM_APP_CHAT),
                ServiceId::MsgApp(MSG_APP_STORM),
                CtlMsg::Hello,
            ),
    {
        send_ctl(self.identity(), ServiceId::stormd(), CtlMsg::Hello)
    }

    /// Handles one extension message: a post from a peer is broadcast to
    /// the subscribed clients with the sender's identity; everything else
    /// is refused.
    pub fn handle_storm(&self, message: ExtMsg, out: &mut Vec<Action>) -> (r: Result<
        (),
        DaemonError,
    >)
        ensures
            match message {
                ExtMsg::Post(AddressedMsg { remote_id, data }) => {
                    &&& r == Ok::<(), DaemonError>(())
                    &&& final(out)@ == old(out)@.push(
                        Action::Send(
                            Envelope {
                                bus: ServiceBus::Chat,
                                source: ServiceId::StormApp(STORM_APP_CHAT),
                                dest: ServiceId::MsgApp(MSG_APP_STORM),
                                msg: BusMsg::Chat(
                                    RadioMsg::Received(
                                        AddressedMsg { remote_id, data: data.body },
                                    ),
                                ),
                            },
                        ),
                    )
                },
                _ => {
                    &&& r == Err::<(), DaemonError>(
                        DaemonError::RequestNotSupported(ServiceBus::Rpc),
                    )
                    &&& final(out)@ == old(out)@
                },
            },
    {
        match message {
            ExtMsg::Post(AddressedMsg { remote_id, data }) => {
                let chat_msg = AddressedMsg { remote_id, data: data.body };
                out.push(Action::Send(send_radio(self.identity(), RadioMsg::Received(chat_msg))));
                Ok(())
            }
            wrong_msg => {
                let _ = wrong_msg;
                Err(DaemonError::wrong_esb_msg(ServiceBus::Rpc))
            }
        }
    }

    /// Handles one client request: a chat message to a peer becomes a post
    /// on the extension bus, addressed to the orchestrator for forwarding;
    /// everything else is refused.
    pub fn handle_rpc(&self, client_id: ClientId, message: RpcMsg, out: &mut Vec<Action>) -> (r:
        Result<(), DaemonError>)
        ensures
            match message {
                RpcMsg::SendChat(AddressedMsg { remote_id, data }) => {
                    &&& r == Ok::<(), DaemonError>(())
                    &&& final(out)@.len() == old(out)@.len() + 1
                    &&& final(out)@ == old(out)@.push(final(out)@.last())
                    &&& match final(out)@.last() {
                        Action::Send(e) => {
                            &&& e.bus == ServiceBus::Storm
                            &&& e.source == ServiceId::StormApp(STORM_APP_CHAT)
                            &&& e.dest == ServiceId::MsgApp(MSG_APP_STORM)
                            &&& match e.msg {
                                BusMsg::Storm(ExtMsg::Post(am)) => {
                                    &&& am.remote_id == remote_id
                                    &&& am.data.parent_id@ == Seq::new(32, |i: int| 0u8)
                                    &&& am.data.body == data
                                    &&& am.data.container_ids@ == Seq::<
                                        crate::ids::ContainerId,
                                    >::empty()
                                },
                                _ => false,
                            }
                        },
                        _ => false,
                    }
                },
                _ => {
                    &&& r == Err::<(), DaemonError>(
                        DaemonError::RequestNotSupported(ServiceBus::Rpc),
                    )
                    &&& final(out)@ == old(out)@
                },
            },
    {
        let _ = client_id;
        match message {
            RpcMsg::SendChat(AddressedMsg { remote_id, data }) => {
                let parent_id = MesgId { bytes: [0u8; 32] };
                proof {
                    assert(parent_id@ =~= Seq::new(32, |i: int| 0u8));
                }
                let addressed_msg = AddressedMsg {
                    remote_id,
                    data: Mesg { parent_id, body: data, container_ids: Vec::new() },
                };
                out.push(
                    Action::Send(send_ext(self.identity(), None, ExtMsg::Post(addressed_msg))),
                );
                Ok(())
            }
            wrong_msg => {
                let _ = wrong_msg;
                Err(DaemonError::wrong_esb_msg(ServiceBus::Rpc))
            }
        }
    }

    /// The relay takes no control-bus instructions.
    pub fn handle_ctl(&self, source: ServiceId, message: CtlMsg, out: &mut Vec<Action>) -> (r:
        Result<(), DaemonError>)
        ensures
            r == Err::<(), DaemonError>(DaemonError::RequestNotSupported(ServiceBus::Ctl)),
            final(out)@ == old(out)@,
    {
        let _ = source;
        let _ = message;
        let _ = out;
        Err(DaemonError::wrong_esb_msg(ServiceBus::Ctl))
    }

    /// Routes one delivered message: extension posts must come from the
    /// orchestrator, client requests from a client; anything else is a
    /// protocol violation that changes nothing.
    pub fn handle(
        &self,
        bus_id: ServiceBus,
        source: ServiceId,
        request: BusMsg,
        out: &mut Vec<Action>,
    ) -> (r: Result<(), DaemonError>)
        ensures
            !(match (bus_id, request, source) {
                (ServiceBus::Storm, BusMsg::Storm(_), ServiceId::MsgApp(tag)) => tag
                    == MSG_APP_STORM,
                (ServiceBus::Rpc, BusMsg::Rpc(_), ServiceId::Client(_)) => true,
                (ServiceBus::Ctl, BusMsg::Ctl(_), _) => true,
                _ => false,
            }) ==> {
                &&& r == Err::<(), DaemonError>(DaemonError::RequestNotSupported(bus_id))
                &&& final(out)@ == old(out)@
            },
            match (bus_id, request, source) {
                (ServiceBus::Storm, BusMsg::Storm(m), ServiceId::MsgApp(tag)) => tag
                    == MSG_APP_STORM ==> (r is Ok <==> m matches ExtMsg::Post(_)),
                (ServiceBus::Rpc, BusMsg::Rpc(m), ServiceId::Client(_)) => r is Ok <==> m matches
                    RpcMsg::SendChat(_),
                (ServiceBus::Ctl, BusMsg::Ctl(_), _) => r is Err,
                _ => true,
            },
    {
        match (bus_id, request, source) {
            (ServiceBus::Storm, BusMsg::Storm(msg), ServiceId::MsgApp(tag)) => {
                if tag == MSG_APP_STORM {
                    self.handle_storm(msg, out)
                } else {
                    Err(DaemonError::wrong_esb_msg(ServiceBus::Storm))
                }
            }
            (ServiceBus::Rpc, BusMsg::Rpc(msg), ServiceId::Client(client_id)) => self.handle_rpc(
                client_id,
                msg,
                out,
            ),
            (ServiceBus::Ctl, BusMsg::Ctl(msg), src) => self.handle_ctl(src, msg, out),
            (bus, msg, _) => {
                let _ = msg;
                Err(DaemonError::wrong_esb_msg(bus))
            }
        }
    }
}

} // verus!
