//! Scenarios for the transfer worker's state machine.

use storm_node::bus::{Action, BusMsg, CtlMsg, ServiceBus, ServiceId};
use storm_node::error::DaemonError;
use storm_node::ids::{Chunk, ChunkId, Container, ContainerFullId, ContainerHeader, ContainerId,
    MesgId};
use storm_node::p2p;
use storm_node::rpc::RpcMsg;
use storm_node::transferd::{AutomationError, ReceiveState, ReceiveStateName, Runtime, StateTy};

fn full_id(n: u8) -> ContainerFullId {
    ContainerFullId {
        message_id: MesgId { bytes: [n; 32] },
        container_id: ContainerId { bytes: [n; 32] },
    }
}

fn container_of(chunks: Vec<ChunkId>) -> Container {
    Container {
        header: ContainerHeader {
            version: 0,
            mime: b"application/octet-stream".to_vec(),
            info: b"test".to_vec(),
            size: 3,
        },
        chunks,
    }
}

fn pending_of(w: &Runtime) -> Vec<ChunkId> {
    match &w.state {
        StateTy::Receive(ReceiveState::ReceivingChunks { pending, .. }) => pending.clone(),
        other => panic!("worker is not receiving chunks: {:?}", other),
    }
}

#[test]
fn receive_starts_only_when_free() {
    let mut w = Runtime::with(1);
    let mut out: Vec<Action> = Vec::new();
    assert!(w.handle_receive(Some(7), 3, 9, full_id(0xAA), &mut out).is_ok());
    // A second receive instruction is refused while one is running.
    let err = w.handle_receive(Some(7), 3, 9, full_id(0xBB), &mut out);
    assert_eq!(
        err,
        Err(DaemonError::TransferAutomation(AutomationError::InvalidState {
            expected: StateTy::Free,
            found: StateTy::Receive(ReceiveStateName::AwaitingContainer),
        }))
    );
    // The refused instruction left the state alone.
    assert_eq!(w.state.state_name(), StateTy::Receive(ReceiveStateName::AwaitingContainer));
}

#[test]
fn wrong_phase_reports_expected_and_found() {
    let mut w = Runtime::with(1);
    let mut out: Vec<Action> = Vec::new();
    // A container payload while free: the worker expected nothing.
    let err = w.handle_container(container_of(vec![]), &mut out);
    assert_eq!(
        err,
        Err(DaemonError::TransferAutomation(AutomationError::InvalidState {
            expected: StateTy::Receive(ReceiveStateName::AwaitingContainer),
            found: StateTy::Free,
        }))
    );
    // A chunk while free is refused the same way.
    let err = w.handle_chunk(Chunk { data: vec![1, 2, 3] }, &mut out);
    assert_eq!(
        err,
        Err(DaemonError::TransferAutomation(AutomationError::InvalidState {
            expected: StateTy::Receive(ReceiveStateName::ReceivingChunks),
            found: StateTy::Free,
        }))
    );
    assert_eq!(w.state.state_name(), StateTy::<ReceiveStateName>::Free);
    assert!(out.is_empty());
}

#[test]
fn pull_requests_only_unknown_chunks() {
    let c1 = Chunk { data: vec![1] };
    let c2 = Chunk { data: vec![2] };
    let c3 = Chunk { data: vec![3] };
    let (id1, id2, id3) = (c1.chunk_id(), c2.chunk_id(), c3.chunk_id());

    let mut w = Runtime::with(1);
    // The store already holds c2.
    w.store.store_chunk(&id2, c2.clone());

    let mut out: Vec<Action> = Vec::new();
    assert!(w.handle_receive(None, 3, 9, full_id(0xAA), &mut out).is_ok());
    assert!(w.handle_container(container_of(vec![id1, id2, id3]), &mut out).is_ok());

    let pending = pending_of(&w);
    assert_eq!(pending, vec![id1, id3]);

    // The peer is asked for exactly the missing ids.
    let last = out.last().unwrap();
    match last {
        Action::Send(e) => {
            assert_eq!(e.bus, ServiceBus::Msg);
            assert_eq!(e.dest, ServiceId::Peer(9));
            match &e.msg {
                BusMsg::Bifrost(p2p::Messages::PullChunk(cp)) => {
                    assert_eq!(cp.chunk_ids, vec![id1, id3]);
                    assert_eq!(cp.container_id, full_id(0xAA).container_id);
                }
                other => panic!("unexpected message: {:?}", other),
            }
        }
        other => panic!("unexpected action: {:?}", other),
    }
}

#[test]
fn completion_is_reported_when_pending_empties() {
    let c1 = Chunk { data: vec![1] };
    let c3 = Chunk { data: vec![3] };
    let (id1, id3) = (c1.chunk_id(), c3.chunk_id());

    let mut w = Runtime::with(1);
    let mut out: Vec<Action> = Vec::new();
    assert!(w.handle_receive(None, 3, 9, full_id(0xAA), &mut out).is_ok());
    assert!(w.handle_container(container_of(vec![id1, id3]), &mut out).is_ok());

    assert!(w.handle_chunk(c1, &mut out).is_ok());
    assert_eq!(w.state.state_name(), StateTy::Receive(ReceiveStateName::ReceivingChunks));
    assert_eq!(pending_of(&w), vec![id3]);

    assert!(w.handle_chunk(c3, &mut out).is_ok());
    assert_eq!(w.state.state_name(), StateTy::<ReceiveStateName>::Free);
    // Completion went to the orchestrator on the control bus.
    match out.last().unwrap() {
        Action::Send(e) => {
            assert_eq!(e.bus, ServiceBus::Ctl);
            assert_eq!(e.dest, ServiceId::stormd());
            assert_eq!(e.msg, BusMsg::Ctl(CtlMsg::ProcessingComplete));
        }
        other => panic!("unexpected action: {:?}", other),
    }
}

#[test]
fn arrival_order_does_not_matter() {
    let chunks = vec![Chunk { data: vec![1] }, Chunk { data: vec![2] }, Chunk { data: vec![3] }];
    let ids: Vec<ChunkId> = chunks.iter().map(|c| c.chunk_id()).collect();

    let run = |order: Vec<usize>| -> (StateTy<ReceiveStateName>, Vec<Action>) {
        let mut w = Runtime::with(1);
        let mut out: Vec<Action> = Vec::new();
        w.handle_receive(None, 3, 9, full_id(0xAA), &mut out).unwrap();
        w.handle_container(container_of(ids.clone()), &mut out).unwrap();
        let mut tail: Vec<Action> = Vec::new();
        for i in order {
            w.handle_chunk(chunks[i].clone(), &mut tail).unwrap();
        }
        (w.state.state_name(), tail)
    };

    let (s1, a1) = run(vec![0, 1, 2]);
    let (s2, a2) = run(vec![2, 0, 1]);
    // Any permutation of the same deliveries ends in the same state with
    // the same completion notice.
    assert_eq!(s1, StateTy::<ReceiveStateName>::Free);
    assert_eq!(s1, s2);
    assert_eq!(a1.last(), a2.last());
}

#[test]
fn duplicate_chunk_is_a_no_op() {
    let c1 = Chunk { data: vec![1] };
    let c2 = Chunk { data: vec![2] };
    let (id1, id2) = (c1.chunk_id(), c2.chunk_id());

    let mut w = Runtime::with(1);
    let mut out: Vec<Action> = Vec::new();
    w.handle_receive(None, 3, 9, full_id(0xAA), &mut out).unwrap();
    w.handle_container(container_of(vec![id1, id2]), &mut out).unwrap();

    // First delivery strikes c2 off.
    assert!(w.handle_chunk(c2.clone(), &mut out).is_ok());
    assert_eq!(pending_of(&w), vec![id1]);
    // The second delivery of c2 is a no-op, not an error.
    assert!(w.handle_chunk(c2, &mut out).is_ok());
    assert_eq!(pending_of(&w), vec![id1]);
}

#[test]
fn duplicate_after_completion_is_out_of_phase() {
    // With a single pending chunk the first delivery completes the
    // transfer; a repeat then finds a free worker and is refused as any
    // other out-of-phase instruction.
    let c2 = Chunk { data: vec![2] };
    let id2 = c2.chunk_id();

    let mut w = Runtime::with(1);
    let mut out: Vec<Action> = Vec::new();
    w.handle_receive(None, 3, 9, full_id(0xAA), &mut out).unwrap();
    w.handle_container(container_of(vec![id2]), &mut out).unwrap();
    assert_eq!(pending_of(&w), vec![id2]);

    assert!(w.handle_chunk(c2.clone(), &mut out).is_ok());
    assert_eq!(w.state.state_name(), StateTy::<ReceiveStateName>::Free);

    let err = w.handle_chunk(c2, &mut out);
    assert_eq!(
        err,
        Err(DaemonError::TransferAutomation(AutomationError::InvalidState {
            expected: StateTy::Receive(ReceiveStateName::ReceivingChunks),
            found: StateTy::Free,
        }))
    );
}

#[test]
fn storing_twice_changes_nothing() {
    let c = Chunk { data: vec![4, 5, 6] };
    let id = c.chunk_id();
    let mut w = Runtime::with(1);
    w.store.store_chunk(&id, c.clone());
    let first = w.store.retrieve_chunk(&id).cloned();
    w.store.store_chunk(&id, c.clone());
    let second = w.store.retrieve_chunk(&id).cloned();
    assert_eq!(first, Some(c));
    assert_eq!(first, second);
}

#[test]
fn announce_requires_stored_header() {
    let mut w = Runtime::with(1);
    let mut out: Vec<Action> = Vec::new();
    let id = full_id(0xCC);
    let err = w.handle_announce(None, 3, 9, id, &mut out);
    assert_eq!(err, Err(DaemonError::UnknownContainer(id.container_id)));
    assert!(out.is_empty());

    let header = ContainerHeader { version: 0, mime: b"text/plain".to_vec(), info: vec![], size: 0 };
    w.store.store_header(&id.container_id, header.clone());
    assert!(w.handle_announce(None, 3, 9, id, &mut out).is_ok());
    assert_eq!(out.len(), 2);
    match &out[0] {
        Action::Send(e) => match &e.msg {
            BusMsg::Bifrost(p2p::Messages::AnnounceContainer(am)) => {
                assert_eq!(am.data.header, header);
                assert_eq!(am.data.id, id);
            }
            other => panic!("unexpected message: {:?}", other),
        },
        other => panic!("unexpected action: {:?}", other),
    }
}

#[test]
fn send_chunks_skips_unavailable() {
    let c1 = Chunk { data: vec![1] };
    let c2 = Chunk { data: vec![2] };
    let (id1, id2) = (c1.chunk_id(), c2.chunk_id());

    let mut w = Runtime::with(1);
    w.store.store_chunk(&id1, c1.clone());

    let mut out: Vec<Action> = Vec::new();
    let cid = ContainerId { bytes: [9; 32] };
    assert!(w.handle_send_chunks(3, 9, cid, vec![id1, id2], &mut out).is_ok());
    // One push for the held chunk, then the completion notice.
    assert_eq!(out.len(), 2);
    match &out[0] {
        Action::Send(e) => match &e.msg {
            BusMsg::Bifrost(p2p::Messages::PushChunk(cp)) => {
                assert_eq!(cp.chunk_id, id1);
                assert_eq!(cp.chunk, c1);
            }
            other => panic!("unexpected message: {:?}", other),
        },
        other => panic!("unexpected action: {:?}", other),
    }
    match &out[1] {
        Action::Send(e) => assert_eq!(e.msg, BusMsg::Ctl(CtlMsg::ProcessingComplete)),
        other => panic!("unexpected action: {:?}", other),
    }
}

#[test]
fn chunk_id_is_a_digest_of_content() {
    // The library's chunk id must agree with the content digest that the
    // peer network uses, and differs from the raw bytes themselves.
    let data = vec![1u8, 2, 3];
    let id = Chunk { data: data.clone() }.chunk_id();
    let reference = storm::Chunk::try_from(data.as_slice()).unwrap().chunk_id();
    assert_eq!(id.bytes.as_slice(), reference.as_ref());
    // Equal content gives an equal id; different content a different one.
    assert_eq!(id, Chunk { data: vec![1, 2, 3] }.chunk_id());
    assert_ne!(id, Chunk { data: vec![3, 2, 1] }.chunk_id());
}

#[test]
fn worker_accepts_only_control_messages() {
    let mut w = Runtime::with(1);
    let mut out: Vec<Action> = Vec::new();
    let r = w.handle(ServiceBus::Rpc, ServiceId::Client(7), BusMsg::Rpc(RpcMsg::Success), &mut out);
    assert_eq!(r, Err(DaemonError::RequestNotSupported(ServiceBus::Rpc)));
    assert_eq!(w.state.state_name(), StateTy::<ReceiveStateName>::Free);
    assert!(out.is_empty());
}
