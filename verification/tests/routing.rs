//! Tests for the addressing layer, the message conversions, the failure
//! taxonomy, the chat relay and the chunking boundary.

use storm_node::bus::{
    report_send_outcome, send_ctl, send_p2p, send_rpc, Action, BusMsg, CtlMsg, Daemon, Envelope,
    ServiceBus, ServiceId,
};
use storm_node::chatd;
use storm_node::chunking::{assemble, split_into_chunks};
use storm_node::ext::ExtMsg;
use storm_node::ids::{Chunk, ContainerFullId, ContainerId, Mesg, MesgId, CHUNK_MAX_LEN};
use storm_node::p2p::{AppMsg, Messages};
use storm_node::rpc::{
    AddressedMsg, Error, Failure, FailureCode, ProgressNote, RadioMsg, RpcFailureCode, RpcMsg,
};

fn full_id(n: u8) -> ContainerFullId {
    ContainerFullId {
        message_id: MesgId { bytes: [n; 32] },
        container_id: ContainerId { bytes: [n; 32] },
    }
}

#[test]
fn envelopes_carry_explicit_source_and_destination() {
    let e = send_p2p(ServiceId::stormd(), 9, Messages::ListApps);
    assert_eq!(
        e,
        Envelope {
            bus: ServiceBus::Msg,
            source: ServiceId::stormd(),
            dest: ServiceId::Peer(9),
            msg: BusMsg::Bifrost(Messages::ListApps),
        }
    );
    let e = send_rpc(ServiceId::stormd(), 7, RpcMsg::Success);
    assert_eq!(e.bus, ServiceBus::Rpc);
    assert_eq!(e.dest, ServiceId::Client(7));
    let e = send_ctl(ServiceId::stormd(), ServiceId::Transfer(1), CtlMsg::Hello);
    assert_eq!(e.bus, ServiceBus::Ctl);
    assert_eq!(e.dest, ServiceId::Transfer(1));
}

#[test]
fn send_outcome_reporting() {
    let src = ServiceId::Transfer(1);
    // No client: nothing to report, whatever happened.
    assert_eq!(report_send_outcome(src, None, Some(ProgressNote::RequestedContainer), true), None);
    assert_eq!(report_send_outcome(src, None, None, false), None);
    // Delivered with a note: the note reaches the client.
    let e = report_send_outcome(src, Some(7), Some(ProgressNote::RequestedContainer), true)
        .expect("a progress report");
    assert_eq!(e.msg, BusMsg::Rpc(RpcMsg::Progress(ProgressNote::RequestedContainer)));
    assert_eq!(e.dest, ServiceId::Client(7));
    // Delivered without a note: silence.
    assert_eq!(report_send_outcome(src, Some(7), None, true), None);
    // Not delivered: a transport failure reaches the client.
    let e = report_send_outcome(src, Some(7), None, false).expect("a failure report");
    assert_eq!(
        e.msg,
        BusMsg::Rpc(RpcMsg::Failure(Failure { code: RpcFailureCode::Transport }))
    );
}

#[test]
fn peer_messages_fold_into_extension_messages() {
    let id = full_id(0xAB);
    let m = Messages::PullContainer(AppMsg { app: 4, data: id });
    match m.storm_ext_msg(9) {
        Ok((app, ExtMsg::RetrieveContainer(am))) => {
            assert_eq!(app, 4);
            assert_eq!(am.remote_id, 9);
            assert_eq!(am.data, id);
        }
        other => panic!("unexpected folding: {:?}", other),
    }
    // Messages the node answers itself come back unchanged.
    match Messages::ListApps.storm_ext_msg(9) {
        Err(Messages::ListApps) => {}
        other => panic!("unexpected folding: {:?}", other),
    }
}

#[test]
fn extension_messages_forward_as_peer_messages() {
    let mesg = Mesg { parent_id: MesgId { bytes: [0; 32] }, body: vec![1, 2], container_ids: vec![] };
    let m = ExtMsg::Post(AddressedMsg { remote_id: 9, data: mesg.clone() });
    assert_eq!(m.remote_id(), 9);
    assert_eq!(m.p2p_message(4), Messages::Post(AppMsg { app: 4, data: mesg }));
}

#[test]
fn failure_codes_keep_their_wire_values() {
    assert_eq!(FailureCode::Unknown.as_code(), 0xFFF);
    assert_eq!(FailureCode::Encoding.as_code(), 0x02);
    assert_eq!(FailureCode::Launch.as_code(), 0x03);
    assert_eq!(FailureCode::Esb.as_code(), 0x10);
    assert_eq!(FailureCode::UnexpectedRequest.as_code(), 0x11);
    assert_eq!(FailureCode::Store.as_code(), 0x12);
    assert_eq!(FailureCode::TransferAutomation.as_code(), 0x20);
    assert_eq!(FailureCode::UnknownContainer.as_code(), 0x21);
    assert_eq!(FailureCode::from_code(0x21), FailureCode::Unknown);
}

#[test]
fn failures_turn_into_client_errors() {
    let local = RpcMsg::Failure(Failure {
        code: RpcFailureCode::Other(FailureCode::TransferAutomation),
    });
    assert_eq!(
        local.failure_to_error(),
        Err(Error::LocalFailure { code: FailureCode::TransferAutomation })
    );
    let remote = RpcMsg::Failure(Failure { code: RpcFailureCode::Transport });
    assert_eq!(
        remote.failure_to_error(),
        Err(Error::RemoteFailure { code: RpcFailureCode::Transport })
    );
    let ok = RpcMsg::Progress(ProgressNote::RequestForwarded);
    assert_eq!(ok.failure_to_error(), Ok(RpcMsg::Progress(ProgressNote::RequestForwarded)));
}

#[test]
fn chat_receives_only_from_the_awaited_peer() {
    let msg = RadioMsg::Received(AddressedMsg { remote_id: 9, data: b"hi".to_vec() });
    assert_eq!(msg.clone().chat_recv(9), Ok(b"hi".to_vec()));
    assert_eq!(msg.chat_recv(8), Err(Error::UnexpectedServerResponse));
}

#[test]
fn chat_relay_wraps_and_broadcasts() {
    let relay = chatd::Runtime::init();
    let mut out: Vec<Action> = Vec::new();
    // A client's chat line becomes a post on the extension bus.
    relay
        .handle_rpc(7, RpcMsg::SendChat(AddressedMsg { remote_id: 9, data: b"hi".to_vec() }), &mut out)
        .unwrap();
    match &out[0] {
        Action::Send(e) => {
            assert_eq!(e.bus, ServiceBus::Storm);
            assert_eq!(e.dest, ServiceId::stormd());
            match &e.msg {
                BusMsg::Storm(ExtMsg::Post(am)) => {
                    assert_eq!(am.remote_id, 9);
                    assert_eq!(am.data.body, b"hi".to_vec());
                }
                other => panic!("unexpected message: {:?}", other),
            }
        }
        other => panic!("unexpected action: {:?}", other),
    }
    // A peer's post is broadcast to subscribed clients.
    let mesg = Mesg { parent_id: MesgId { bytes: [0; 32] }, body: b"yo".to_vec(), container_ids: vec![] };
    let mut out2: Vec<Action> = Vec::new();
    relay.handle_storm(ExtMsg::Post(AddressedMsg { remote_id: 9, data: mesg }), &mut out2).unwrap();
    match &out2[0] {
        Action::Send(e) => {
            assert_eq!(e.bus, ServiceBus::Chat);
            assert_eq!(e.msg, BusMsg::Chat(RadioMsg::Received(AddressedMsg {
                remote_id: 9,
                data: b"yo".to_vec(),
            })));
        }
        other => panic!("unexpected action: {:?}", other),
    }
}

#[test]
fn daemon_binary_names() {
    assert_eq!(Daemon::Transferd.bin_name(), "transferd");
    assert_eq!(Daemon::Chatd.bin_name(), "chatd");
    assert_eq!(Daemon::Downpourd.bin_name(), "downpourd");
}

#[test]
fn chunking_round_trip() {
    let data: Vec<u8> = (0u8..=255).cycle().take(CHUNK_MAX_LEN + 10).collect();
    let chunks = split_into_chunks(&data);
    assert_eq!(chunks.len(), 2);
    assert_eq!(chunks[0].data.len(), CHUNK_MAX_LEN);
    assert_eq!(chunks[1].data.len(), 10);
    let back = assemble(&chunks).expect("the total length fits");
    assert_eq!(back, data);
}

#[test]
fn chunking_of_empty_data() {
    let chunks = split_into_chunks(&Vec::new());
    assert!(chunks.is_empty());
    assert_eq!(assemble(&chunks), Some(Vec::new()));
}

#[test]
fn chunk_refuses_oversized_buffers() {
    assert!(Chunk::with(vec![0u8; CHUNK_MAX_LEN]).is_some());
    assert!(Chunk::with(vec![0u8; CHUNK_MAX_LEN + 1]).is_none());
}
