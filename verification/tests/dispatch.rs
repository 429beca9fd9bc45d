//! Scenarios for the orchestrator's queuing and assignment.

use storm_node::bus::{Action, BusMsg, CtlMsg, Daemon, ServiceBus, ServiceId};
use storm_node::error::DaemonError;
use storm_node::ext::ExtMsg;
use storm_node::ids::{Chunk, ChunkId, Container, ContainerFullId, ContainerHeader, ContainerId,
    MesgId};
use storm_node::p2p;
use storm_node::rpc::{AddressedMsg, AppContainer, RpcMsg};
use storm_node::stormd::{PickOutcome, Runtime};
use storm_node::transferd;

fn full_id(n: u8) -> ContainerFullId {
    ContainerFullId {
        message_id: MesgId { bytes: [n; 32] },
        container_id: ContainerId { bytes: [n; 32] },
    }
}

fn get_request(peer: u64, id: ContainerFullId) -> RpcMsg {
    RpcMsg::GetContainer(AddressedMsg {
        remote_id: peer,
        data: AppContainer { storm_app: 3, container_id: id },
    })
}

fn sent_ctl(action: &Action) -> (&ServiceId, &CtlMsg) {
    match action {
        Action::Send(e) => match &e.msg {
            BusMsg::Ctl(m) => (&e.dest, m),
            other => panic!("not a control message: {:?}", other),
        },
        other => panic!("not a send: {:?}", other),
    }
}

#[test]
fn pick_task_reports_idle_on_empty_queue() {
    let mut orch = Runtime::init();
    let mut out: Vec<Action> = Vec::new();
    orch.accept_daemon(ServiceId::Transfer(1));
    assert_eq!(orch.pick_task(&mut out), PickOutcome::Idle);
    assert!(out.is_empty());
    assert_eq!(orch.transferd_free, vec![1]);
}

#[test]
fn no_worker_available_keeps_the_task_queued() {
    // Task queue has one entry, free pool is empty: pick_task reports
    // unavailability without consuming the queue; pick_or_start launches a
    // fresh worker; the entry stays until a registration triggers a
    // successful pick.
    let mut orch = Runtime::init();
    let mut out: Vec<Action> = Vec::new();
    let id = full_id(0xC1);
    assert!(orch.handle_rpc(7, get_request(9, id), &mut out).is_ok());
    assert_eq!(orch.ctl_queue.len(), 1);
    assert!(out.contains(&Action::Launch(Daemon::Transferd)));

    let mut out2: Vec<Action> = Vec::new();
    assert_eq!(orch.pick_task(&mut out2), PickOutcome::Unavailable);
    assert_eq!(orch.ctl_queue.len(), 1);
    assert!(out2.is_empty());

    // The new worker's registration drains the queue.
    let mut out3: Vec<Action> = Vec::new();
    assert!(orch.handle_ctl(ServiceId::Transfer(5), CtlMsg::Hello, &mut out3).is_ok());
    assert_eq!(orch.ctl_queue.len(), 0);
    assert_eq!(orch.transferd_busy, vec![5]);
    let (dest, msg) = sent_ctl(&out3[0]);
    assert_eq!(*dest, ServiceId::Transfer(5));
    assert!(matches!(msg, CtlMsg::GetContainer(_)));
}

#[test]
fn assignment_never_picks_a_busy_worker() {
    let mut orch = Runtime::init();
    let mut out: Vec<Action> = Vec::new();
    orch.accept_daemon(ServiceId::Transfer(1));
    orch.accept_daemon(ServiceId::Transfer(2));

    assert!(orch.handle_rpc(7, get_request(9, full_id(0xC1)), &mut out).is_ok());
    assert_eq!(orch.transferd_busy, vec![1]);
    assert_eq!(orch.transferd_free, vec![2]);

    assert!(orch.handle_rpc(7, get_request(9, full_id(0xC2)), &mut out).is_ok());
    assert_eq!(orch.transferd_busy, vec![1, 2]);
    assert!(orch.transferd_free.is_empty());

    // With both workers busy a third request queues up; nobody is assigned
    // twice.
    assert!(orch.handle_rpc(7, get_request(9, full_id(0xC3)), &mut out).is_ok());
    assert_eq!(orch.transferd_busy, vec![1, 2]);
    assert_eq!(orch.ctl_queue.len(), 1);
}

#[test]
fn no_idle_worker_with_nonempty_queue() {
    // After every handler call the orchestrator holds an empty queue or an
    // empty free pool.
    let mut orch = Runtime::init();
    let mut out: Vec<Action> = Vec::new();
    let quiescent = |o: &Runtime| o.ctl_queue.is_empty() || o.transferd_free.is_empty();

    assert!(quiescent(&orch));
    orch.handle_rpc(7, get_request(9, full_id(0xC1)), &mut out).unwrap();
    assert!(quiescent(&orch));
    orch.handle_ctl(ServiceId::Transfer(1), CtlMsg::Hello, &mut out).unwrap();
    assert!(quiescent(&orch));
    orch.handle_rpc(7, get_request(9, full_id(0xC2)), &mut out).unwrap();
    assert!(quiescent(&orch));
    orch.handle_ctl(ServiceId::Transfer(1), CtlMsg::ProcessingComplete, &mut out).unwrap();
    assert!(quiescent(&orch));
}

#[test]
fn full_download_round() {
    // A client asks for container C from peer P; worker W1 pulls the
    // container, learns chunks {c1,c2,c3} of which the store knows c2,
    // pulls {c1,c3}, and completes once both arrive; the orchestrator
    // frees W1 and forgets the transfer.
    let peer: u64 = 9;
    let client: u64 = 7;

    let c1 = Chunk { data: vec![1] };
    let c2 = Chunk { data: vec![2] };
    let c3 = Chunk { data: vec![3] };
    let ids: Vec<ChunkId> = vec![c1.chunk_id(), c2.chunk_id(), c3.chunk_id()];
    let container = Container {
        header: ContainerHeader { version: 0, mime: b"text/plain".to_vec(), info: vec![], size: 3 },
        chunks: ids.clone(),
    };
    let full = full_id(0xC1);

    let mut orch = Runtime::init();
    let mut out: Vec<Action> = Vec::new();
    orch.handle_ctl(ServiceId::Transfer(1), CtlMsg::Hello, &mut out).unwrap();
    orch.handle_rpc(client, get_request(peer, full), &mut out).unwrap();

    // The orchestrator assigned the task to W1 (a progress note to the
    // client follows the assignment).
    let assignment = out
        .iter()
        .rev()
        .find(|a| matches!(a, Action::Send(e) if matches!(e.msg, BusMsg::Ctl(_))))
        .expect("an assignment was sent");
    let (dest, task) = sent_ctl(assignment);
    let task = match task {
        CtlMsg::GetContainer(_) => task.clone(),
        other => panic!("unexpected task: {:?}", other),
    };
    assert_eq!(*dest, ServiceId::Transfer(1));
    assert!(orch.container_transfers.contains_key(&full.container_id.bytes));

    // W1 runs the transfer, with c2 already in its store mirror.
    let mut w = transferd::Runtime::with(1);
    w.store.store_chunk(&ids[1], c2);
    let mut wout: Vec<Action> = Vec::new();
    w.handle_ctl(ServiceId::stormd(), task, &mut wout).unwrap();
    match &wout[0] {
        Action::Send(e) => {
            assert_eq!(e.dest, ServiceId::Peer(peer));
            assert!(matches!(e.msg, BusMsg::Bifrost(p2p::Messages::PullContainer(_))));
        }
        other => panic!("unexpected action: {:?}", other),
    }
    w.handle_container(container, &mut wout).unwrap();
    match wout.last().unwrap() {
        Action::Send(e) => match &e.msg {
            BusMsg::Bifrost(p2p::Messages::PullChunk(cp)) => {
                assert_eq!(cp.chunk_ids, vec![ids[0], ids[2]]);
            }
            other => panic!("unexpected message: {:?}", other),
        },
        other => panic!("unexpected action: {:?}", other),
    }
    w.handle_chunk(c1, &mut wout).unwrap();
    w.handle_chunk(c3, &mut wout).unwrap();
    let completion = match wout.last().unwrap() {
        Action::Send(e) => match &e.msg {
            BusMsg::Ctl(m) => m.clone(),
            other => panic!("unexpected message: {:?}", other),
        },
        other => panic!("unexpected action: {:?}", other),
    };
    assert_eq!(completion, CtlMsg::ProcessingComplete);

    // The completion frees W1 and drops the correlation entry.
    orch.handle_ctl(ServiceId::Transfer(1), completion, &mut out).unwrap();
    assert_eq!(orch.transferd_free, vec![1]);
    assert!(orch.transferd_busy.is_empty());
    assert!(!orch.container_transfers.contains_key(&full.container_id.bytes));
}

#[test]
fn follow_up_chunk_request_is_routed_not_queued() {
    // While C is actively served by W2, a peer's request for chunks of C
    // goes straight to W2 instead of the task queue.
    let mut orch = Runtime::init();
    let mut out: Vec<Action> = Vec::new();
    orch.handle_ctl(ServiceId::Transfer(2), CtlMsg::Hello, &mut out).unwrap();
    let full = full_id(0xC1);
    orch.handle_rpc(7, get_request(9, full), &mut out).unwrap();
    assert!(orch.container_transfers.contains_key(&full.container_id.bytes));

    let mut out2: Vec<Action> = Vec::new();
    let pull = p2p::Messages::PullChunk(p2p::ChunkPull {
        app: 3,
        message_id: full.message_id,
        container_id: full.container_id,
        chunk_ids: vec![ChunkId { bytes: [1; 32] }],
    });
    orch.handle_p2p(9, pull, &mut out2).unwrap();
    assert_eq!(orch.ctl_queue.len(), 0);
    let (dest, msg) = sent_ctl(&out2[0]);
    assert_eq!(*dest, ServiceId::Transfer(2));
    assert!(matches!(msg, CtlMsg::SendChunks(_)));

    // For an untracked container the same request queues like any task.
    let mut out3: Vec<Action> = Vec::new();
    let other_pull = p2p::Messages::PullChunk(p2p::ChunkPull {
        app: 3,
        message_id: MesgId { bytes: [5; 32] },
        container_id: ContainerId { bytes: [5; 32] },
        chunk_ids: vec![],
    });
    orch.handle_p2p(9, other_pull, &mut out3).unwrap();
    assert_eq!(orch.ctl_queue.len(), 1);
}

#[test]
fn wrong_bus_is_a_protocol_violation() {
    let mut orch = Runtime::init();
    let mut out: Vec<Action> = Vec::new();
    // A control message on the client bus is refused without any change.
    let r = orch.handle(
        ServiceBus::Rpc,
        ServiceId::Client(7),
        BusMsg::Ctl(CtlMsg::Hello),
        &mut out,
    );
    assert_eq!(r, Err(DaemonError::RequestNotSupported(ServiceBus::Rpc)));
    assert!(out.is_empty());
}

#[test]
fn registration_is_accepted_only_from_the_named_app() {
    let mut orch = Runtime::init();
    let mut out: Vec<Action> = Vec::new();
    assert!(orch.handle_app(4, ExtMsg::RegisterApp(4), &mut out).is_ok());
    assert_eq!(orch.registered_apps, vec![4]);
    // Registering twice keeps the registry a set.
    assert!(orch.handle_app(4, ExtMsg::RegisterApp(4), &mut out).is_ok());
    assert_eq!(orch.registered_apps, vec![4]);
    // Another daemon may not register on the app's behalf.
    let r = orch.handle_app(5, ExtMsg::RegisterApp(4), &mut out);
    assert_eq!(
        r,
        Err(DaemonError::SourceNotSupported(ServiceBus::Storm, ServiceId::StormApp(4)))
    );
}

#[test]
fn list_apps_is_answered_with_the_registry() {
    let mut orch = Runtime::init();
    let mut out: Vec<Action> = Vec::new();
    orch.handle_app(4, ExtMsg::RegisterApp(4), &mut out).unwrap();
    orch.handle_app(6, ExtMsg::RegisterApp(6), &mut out).unwrap();

    let mut out2: Vec<Action> = Vec::new();
    orch.handle_p2p(9, p2p::Messages::ListApps, &mut out2).unwrap();
    match &out2[0] {
        Action::Send(e) => {
            assert_eq!(e.dest, ServiceId::Peer(9));
            match &e.msg {
                BusMsg::Bifrost(p2p::Messages::ActiveApps(v)) => assert_eq!(v, &vec![4, 6]),
                other => panic!("unexpected message: {:?}", other),
            }
        }
        other => panic!("unexpected action: {:?}", other),
    }
}
