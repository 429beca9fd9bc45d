//! The transfer worker: a per-process state machine driving one container
//! transfer.
//!
//! A worker is `Free` until a `GetContainer` instruction starts a receive;
//! it then awaits the container description, requests the chunks the store
//! does not yet hold, and returns to `Free` once the pending-chunk set
//! empties, reporting completion to the orchestrator. Announce and send
//! instructions are stateless request/response work and leave the state
//! alone. An instruction that does not match the current phase is refused
//! with `InvalidState` and changes nothing.
//!
//! Handlers perform no I/O: they update the worker's mirror of the store
//! and emit the envelopes to send. The surrounding process mirrors store
//! writes to the real store service, performs the sends, and reports
//! delivery outcomes to the initiating client with
//! `bus::report_send_outcome`.

use vstd::prelude::*;

use crate::bus::{
    send_ctl, send_ctl_spec, send_p2p, send_rpc, send_rpc_spec, Action, BusMsg, CtlMsg, Envelope,
    ServiceBus, ServiceId,
};
use crate::digest::chunk_digest_of;
use crate::error::DaemonError;
use crate::ids::{
    AppId, Chunk, ChunkId, ClientId, Container, ContainerFullId, ContainerId, DaemonId, NodeId,
};
use crate::p2p;
use crate::rpc::{ProgressNote, RpcMsg};
use crate::store::{distinct_ids, id_set, Store};

verus! {

/// The worker refused an instruction that does not match its phase.
#[derive(Clone, Copy, PartialEq, Eq, Hash, Debug)]
pub enum AutomationError {
    /// The service must be in the expected state, but is in the found one.
    InvalidState { expected: StateName, found: StateName },
}

/// The phase of a worker, with or without the phase's data.
#[derive(Clone, Copy, PartialEq, Eq, Hash, Debug)]
pub enum StateTy<R> {
    /// No transfer is running.
    Free,
    /// A receive is running, in the given phase.
    Receive(R),
}

/// The name of a worker's state, without the phase data.
pub type StateName = StateTy<ReceiveStateName>;

/// A worker's full state.
pub type State = StateTy<ReceiveState>;

/// The name of a receive phase.
#[derive(Clone, Copy, PartialEq, Eq, Hash, Debug)]
pub enum ReceiveStateName {
    /// The container description was requested and has not arrived.
    AwaitingContainer,
    /// The container is known; missing chunks are being collected.
    ReceivingChunks,
}

/// The metadata of one transfer, fixed when the transfer starts.
#[derive(Clone, Copy, PartialEq, Eq, Hash, Debug)]
pub struct Info {
    /// The application the container belongs to.
    pub app_id: AppId,
    /// The local client that asked for the transfer, if one did.
    pub client_id: Option<ClientId>,
    /// The peer the container is fetched from.
    pub remote_id: NodeId,
    /// The container being moved.
    pub id: ContainerFullId,
}

/// The data of a running receive.
#[derive(Clone, PartialEq, Eq, Debug)]
pub enum ReceiveState {
    /// The container description was requested and has not arrived.
    AwaitingContainer { info: Info },
    /// The container is known: how many chunks were missing at the start,
    /// and which are still pending. Arrival order does not matter.
    ReceivingChunks { info: Info, total: usize, pending: Vec<ChunkId> },
}

impl ReceiveState {
    /// The name of this phase.
    pub open spec fn state_name_spec(&self) -> ReceiveStateName {
        match self {
            ReceiveState::AwaitingContainer { .. } => ReceiveStateName::AwaitingContainer,
            ReceiveState::ReceivingChunks { .. } => ReceiveStateName::ReceivingChunks,
        }
    }

    /// The transfer metadata of this phase.
    pub open spec fn info_spec(&self) -> Info {
        match self {
            ReceiveState::AwaitingContainer { info } => *info,
            ReceiveState::ReceivingChunks { info, .. } => *info,
        }
    }

    /// The name of this phase.
    pub fn state_name(&self) -> (r: ReceiveStateName)
        ensures
            r == self.state_name_spec(),
    {
        match self {
            ReceiveState::AwaitingContainer { .. } => ReceiveStateName::AwaitingContainer,
            ReceiveState::ReceivingChunks { .. } => ReceiveStateName::ReceivingChunks,
        }
    }

    /// The transfer metadata of this phase.
    pub fn info(&self) -> (r: Info)
        ensures
            r == self.info_spec(),
    {
        match self {
            ReceiveState::AwaitingContainer { info } => *info,
            ReceiveState::ReceivingChunks { info, .. } => *info,
        }
    }
}

impl State {
    /// The name of the worker's state.
    pub open spec fn state_name_spec(&self) -> StateName {
        match self {
            StateTy::Free => StateTy::Free,
            StateTy::Receive(recv) => StateTy::Receive(recv.state_name_spec()),
        }
    }

    /// The transfer metadata, when a transfer is running.
    pub open spec fn info_opt_spec(&self) -> Option<Info> {
        match self {
            StateTy::Free => None,
            StateTy::Receive(recv) => Some(recv.info_spec()),
        }
    }

    /// The chunk ids still pending; empty outside the chunk-receiving
    /// phase.
    pub open spec fn pending_spec(&self) -> Seq<ChunkId> {
        match self {
            StateTy::Receive(ReceiveState::ReceivingChunks { pending, .. }) => pending@,
            _ => Seq::empty(),
        }
    }

    /// How many chunks were missing when the chunk-receiving phase began;
    /// zero outside it.
    pub open spec fn total_spec(&self) -> usize {
        match self {
            StateTy::Receive(ReceiveState::ReceivingChunks { total, .. }) => *total,
            _ => 0,
        }
    }

    /// The pending set never lists a chunk id twice.
    pub open spec fn wf(&self) -> bool {
        distinct_ids(self.pending_spec())
    }

    /// The name of the worker's state.
    pub fn state_name(&self) -> (r: StateName)
        ensures
            r == self.state_name_spec(),
    {
        match self {
            StateTy::Free => StateTy::Free,
            StateTy::Receive(recv) => StateTy::Receive(recv.state_name()),
        }
    }

    /// The transfer metadata, when a transfer is running.
    pub fn info(&self) -> (r: Option<Info>)
        ensures
            r == self.info_opt_spec(),
    {
        match self {
            StateTy::Free => None,
            StateTy::Receive(recv) => Some(recv.info()),
        }
    }

    /// Checks that the worker is in the expected state; any other state is
    /// refused, naming the expected and the found state.
    pub fn require_state(&self, expected: StateName) -> (r: Result<(), AutomationError>)
        ensures
            self.state_name_spec() == expected ==> r == Ok::<(), AutomationError>(()),
            self.state_name_spec() != expected ==> r == Err::<(), AutomationError>(
                AutomationError::InvalidState { expected, found: self.state_name_spec() },
            ),
    {
        let found = self.state_name();
        if name_eq(found, expected) {
            Ok(())
        } else {
            Err(AutomationError::InvalidState { expected, found })
        }
    }
}

/// Compares two state names.
fn name_eq(a: StateName, b: StateName) -> (r: bool)
    ensures
        r == (a == b),
{
    match (a, b) {
        (StateTy::Free, StateTy::Free) => true,
        (StateTy::Receive(x), StateTy::Receive(y)) => match (x, y) {
            (ReceiveStateName::AwaitingContainer, ReceiveStateName::AwaitingContainer) => true,
            (ReceiveStateName::ReceivingChunks, ReceiveStateName::ReceivingChunks) => true,
            _ => false,
        },
        _ => false,
    }
}

/// Copies a list of chunk ids.
fn dup_ids(v: &Vec<ChunkId>) -> (r: Vec<ChunkId>)
    ensures
        r@ == v@,
{
    let mut r: Vec<ChunkId> = Vec::new();
    let mut i: usize = 0;
    while i < v.len()
        invariant
            i <= v@.len(),
            r@ == v@.take(i as int),
        decreases v@.len() - i,
    {
        r.push(v[i]);
        assert(r@ =~= v@.take(i + 1));
        i = i + 1;
    }
    assert(v@.take(v@.len() as int) =~= v@);
    r
}

/// Takes the first occurrence of a digest out of a pending list; an
/// absent digest leaves the list as it is.
fn remove_id(v: &mut Vec<ChunkId>, id: &ChunkId)
    requires
        distinct_ids(old(v)@),
    ensures
        distinct_ids(final(v)@),
        id_set(final(v)@) == id_set(old(v)@).remove(id@),
        id_set(old(v)@).contains(id@) ==> final(v)@.len() == old(v)@.len() - 1,
        !id_set(old(v)@).contains(id@) ==> final(v)@ == old(v)@,
{
    let mut i: usize = 0;
    while i < v.len()
        invariant
            distinct_ids(v@),
            v@ == old(v)@,
            i <= v@.len(),
            forall|j: int| 0 <= j < i ==> (#[trigger] v@[j])@ != id@,
        decreases v@.len() - i,
    {
        if v[i].eq_id(id) {
            let ghost oldseq = v@;
            v.remove(i);
            proof {
                assert forall|j: int| 0 <= j < v@.len() implies #[trigger] v@[j] == oldseq[(
                if j < i {
                    j
                } else {
                    j + 1
                })] by {}
                assert(distinct_ids(v@)) by {
                    assert forall|a: int, b: int|
                        0 <= a < b < v@.len() implies (#[trigger] v@[a])@ != (#[trigger] v@[b])@ by {
                        let a0: int = if a < i { a } else { a + 1 };
                        let b0: int = if b < i { b } else { b + 1 };
                        assert(oldseq[a0]@ != oldseq[b0]@);
                    }
                }
                assert(id_set(v@) =~= id_set(oldseq).remove(id@)) by {
                    assert forall|k: Seq<u8>| id_set(v@).contains(k) implies id_set(oldseq).remove(
                        id@,
                    ).contains(k) by {
                        let j = choose|j: int| 0 <= j < v@.len() && (#[trigger] v@[j])@ == k;
                        let j0: int = if j < i { j } else { j + 1 };
                        assert(oldseq[j0]@ == k);
                        assert(k != id@) by {
                            if k == id@ {
                                assert(oldseq[i as int]@ == id@);
                            }
                        }
                    }
                    assert forall|k: Seq<u8>| id_set(oldseq).remove(id@).contains(k) implies id_set(
                        v@,
                    ).contains(k) by {
                        let j = choose|j: int| 0 <= j < oldseq.len() && (#[trigger] oldseq[j])@ == k;
                        assert(j != i) by {
                            if j == i {
                                assert(oldseq[i as int]@ == id@);
                            }
                        }
                        let j1: int = if j < i { j } else { j - 1 };
                        assert(v@[j1]@ == k);
                    }
                }
                assert(id_set(oldseq).contains(id@)) by {
                    assert(oldseq[i as int]@ == id@);
                }
            }
            return ;
        }
        i = i + 1;
    }
    proof {
        assert(!id_set(v@).contains(id@));
        assert(id_set(v@) =~= id_set(v@).remove(id@));
    }
}

/// How many of the listed chunk ids the store holds.
pub open spec fn count_present(ids: Seq<ChunkId>, held: Set<Seq<u8>>) -> int
    decreases ids.len(),
{
    if ids.len() == 0 {
        0
    } else {
        count_present(ids.drop_last(), held) + if held.contains(ids.last()@) {
            1int
        } else {
            0
        }
    }
}

/// The digest of the j-th listed chunk id that the store holds, in list
/// order.
pub open spec fn nth_present(ids: Seq<ChunkId>, held: Set<Seq<u8>>, j: int) -> Seq<u8>
    decreases ids.len(),
{
    if ids.len() == 0 {
        Seq::empty()
    } else if j < count_present(ids.drop_last(), held) {
        nth_present(ids.drop_last(), held, j)
    } else if held.contains(ids.last()@) && j == count_present(ids.drop_last(), held) {
        ids.last()@
    } else {
        Seq::empty()
    }
}

/// At most every listed id is present.
proof fn lemma_count_present_bound(ids: Seq<ChunkId>, held: Set<Seq<u8>>)
    ensures
        0 <= count_present(ids, held) <= ids.len(),
    decreases ids.len(),
{
    if ids.len() > 0 {
        lemma_count_present_bound(ids.drop_last(), held);
    }
}

/// A transfer worker: its identity, its state machine, and its mirror of
/// the store collaborator.
pub struct Runtime {
    /// This worker's identity on the control bus.
    pub id: DaemonId,
    /// The transfer state machine.
    pub state: State,
    /// The worker's mirror of the content store.
    pub store: Store,
}

impl Runtime {
    /// The state machine and the store mirror are well-formed.
    pub open spec fn wf(&self) -> bool {
        &&& self.state.wf()
        &&& self.store.wf()
    }

    /// A fresh worker: free, with an empty store mirror. The surrounding
    /// process picks the id — any number not already registered serves —
    /// and fills the mirror from the real store.
    pub fn with(id: DaemonId) -> (r: Runtime)
        ensures
            r.wf(),
            r.id == id,
            r.state == StateTy::<ReceiveState>::Free,
            r.store.headers_v() == Map::<Seq<u8>, crate::ids::HeaderV>::empty(),
            r.store.containers_v() == Map::<Seq<u8>, crate::ids::ContainerV>::empty(),
            r.store.chunks_v() == Map::<Seq<u8>, Seq<u8>>::empty(),
    {
        let store = Store::new();
        proof {
            assert(store.headers_v() =~= Map::<Seq<u8>, crate::ids::HeaderV>::empty());
            assert(store.containers_v() =~= Map::<Seq<u8>, crate::ids::ContainerV>::empty());
            assert(store.chunks_v() =~= Map::<Seq<u8>, Seq<u8>>::empty());
        }
        Runtime { id, state: StateTy::Free, store }
    }

    /// This worker's own address.
    pub fn identity(&self) -> (r: ServiceId)
        ensures
            r == ServiceId::Transfer(self.id),
    {
        ServiceId::Transfer(self.id)
    }

    /// The registration a worker sends to the orchestrator once its buses
    /// are connected.
    pub fn on_ready(&self) -> (e: Envelope)
        ensures
            e == send_ctl_spec(
                ServiceId::Transfer(self.id),
                ServiceId::MsgApp(crate::bus::MSG_APP_STORM),
                CtlMsg::Hello,
            ),
    {
        send_ctl(self.identity(), ServiceId::stormd(), CtlMsg::Hello)
    }

    /// Starts receiving a container: the worker must be free; it records
    /// the transfer metadata, enters the container-awaiting phase and asks
    /// the remote peer for the container. The surrounding process reports
    /// the delivery outcome to the client with a `RequestedContainer` note.
    pub fn handle_receive(
        &mut self,
        client_id: Option<ClientId>,
        storm_app: AppId,
        remote_id: NodeId,
        id: ContainerFullId,
        out: &mut Vec<Action>,
    ) -> (r: Result<(), DaemonError>)
        requires
            old(self).wf(),
        ensures
            final(self).wf(),
            final(self).id == old(self).id,
            final(self).store == old(self).store,
            match r {
                Ok(_) => {
                    &&& old(self).state matches StateTy::Free
                    &&& final(self).state == StateTy::Receive(
                        ReceiveState::AwaitingContainer {
                            info: (Info { app_id: storm_app, client_id, remote_id, id }),
                        },
                    )
                    &&& final(out)@ == old(out)@.push(
                        Action::Send(
                            crate::bus::send_p2p_spec(
                                ServiceId::Transfer(old(self).id),
                                remote_id,
                                p2p::Messages::PullContainer(
                                    p2p::AppMsg { app: storm_app, data: id },
                                ),
                            ),
                        ),
                    )
                },
                Err(e) => {
                    &&& !(old(self).state matches StateTy::Free)
                    &&& e == DaemonError::TransferAutomation(
                        AutomationError::InvalidState {
                            expected: StateTy::Free,
                            found: old(self).state.state_name_spec(),
                        },
                    )
                    &&& final(self).state == old(self).state
                    &&& final(out)@ == old(out)@
                },
            },
    {
        match self.state.require_state(StateTy::Free) {
            Err(e) => {
                return Err(DaemonError::TransferAutomation(e));
            }
            Ok(_) => {}
        }
        let me = self.identity();
        self.state = StateTy::Receive(
            ReceiveState::AwaitingContainer {
                info: Info { app_id: storm_app, client_id, remote_id, id },
            },
        );
        out.push(
            Action::Send(
                send_p2p(
                    me,
                    remote_id,
                    p2p::Messages::PullContainer(p2p::AppMsg { app: storm_app, data: id }),
                ),
            ),
        );
        Ok(())
    }

    /// Processes one arriving chunk: the worker must be collecting chunks.
    /// The chunk is stored under its content digest — storing an already
    /// held chunk is a harmless upsert — and its digest is struck off the
    /// pending set, where striking an absent digest changes nothing; either
    /// way the instruction succeeds. The transfer completes exactly when
    /// the pending set becomes empty, whatever the arrival order: the
    /// worker then frees itself and reports completion to the orchestrator.
    pub fn handle_chunk(&mut self, chunk: Chunk, out: &mut Vec<Action>) -> (r: Result<
        (),
        DaemonError,
    >)
        requires
            old(self).wf(),
            chunk.wf(),
        ensures
            final(self).wf(),
            final(self).id == old(self).id,
            match r {
                Ok(_) => {
                    let digest = chunk_digest_of(chunk@);
                    let struck = id_set(old(self).state.pending_spec()).remove(digest);
                    let has_client = old(self).state.info_opt_spec() matches Some(i)
                        && i.client_id is Some;
                    let n = old(out)@.len();
                    &&& old(self).state.state_name_spec() == StateTy::Receive(
                        ReceiveStateName::ReceivingChunks,
                    )
                    &&& final(self).store.chunks_v() == old(self).store.chunks_v().insert(
                        digest,
                        chunk@,
                    )
                    &&& final(self).store.headers_v() == old(self).store.headers_v()
                    &&& final(self).store.containers_v() == old(self).store.containers_v()
                    &&& (struck == Set::<Seq<u8>>::empty() <==> final(self).state
                        == StateTy::<ReceiveState>::Free)
                    &&& (final(self).state != StateTy::<ReceiveState>::Free ==> {
                        &&& final(self).state.state_name_spec() == StateTy::Receive(
                            ReceiveStateName::ReceivingChunks,
                        )
                        &&& final(self).state.info_opt_spec() == old(self).state.info_opt_spec()
                        &&& final(self).state.total_spec() == old(self).state.total_spec()
                        &&& id_set(final(self).state.pending_spec()) == struck
                    })
                    &&& final(out)@.len() == n + (if has_client {
                        1int
                    } else {
                        0
                    }) + (if struck == Set::<Seq<u8>>::empty() {
                        1int
                    } else {
                        0
                    })
                    &&& (has_client ==> match final(out)@[n as int] {
                        Action::Send(e) => {
                            &&& e.bus == ServiceBus::Rpc
                            &&& e.source == ServiceId::Transfer(old(self).id)
                            &&& e.dest == ServiceId::Client(
                                old(self).state.info_opt_spec()->Some_0.client_id->Some_0,
                            )
                            &&& match e.msg {
                                BusMsg::Rpc(RpcMsg::Progress(ProgressNote::ReceivedChunk(cid))) => cid@
                                    == digest,
                                _ => false,
                            }
                        },
                        _ => false,
                    })
                    &&& (struck == Set::<Seq<u8>>::empty() ==> final(out)@.last() == Action::Send(
                        send_ctl_spec(
                            ServiceId::Transfer(old(self).id),
                            ServiceId::MsgApp(crate::bus::MSG_APP_STORM),
                            CtlMsg::ProcessingComplete,
                        ),
                    ))
                },
                Err(e) => {
                    &&& old(self).state.state_name_spec() != StateTy::Receive(
                        ReceiveStateName::ReceivingChunks,
                    )
                    &&& e == DaemonError::TransferAutomation(
                        AutomationError::InvalidState {
                            expected: StateTy::Receive(ReceiveStateName::ReceivingChunks),
                            found: old(self).state.state_name_spec(),
                        },
                    )
                    &&& *final(self) == *old(self)
                    &&& final(out)@ == old(out)@
                },
            },
    {
        let me = self.identity();
        let info = match &self.state {
            StateTy::Receive(ReceiveState::ReceivingChunks { info, .. }) => *info,
            other => {
                return Err(
                    DaemonError::TransferAutomation(
                        AutomationError::InvalidState {
                            expected: StateTy::Receive(ReceiveStateName::ReceivingChunks),
                            found: other.state_name(),
                        },
                    ),
                );
            }
        };
        let chunk_id = chunk.chunk_id();
        if let Some(c) = info.client_id {
            out.push(
                Action::Send(
                    send_rpc(me, c, RpcMsg::Progress(ProgressNote::ReceivedChunk(chunk_id))),
                ),
            );
        }
        self.store.store_chunk(&chunk_id, chunk);
        let mut completed = false;
        match &mut self.state {
            StateTy::Receive(ReceiveState::ReceivingChunks { pending, .. }) => {
                remove_id(pending, &chunk_id);
                if pending.len() == 0 {
                    completed = true;
                    proof {
                        assert(id_set(pending@) =~= Set::<Seq<u8>>::empty());
                    }
                } else {
                    proof {
                        assert(id_set(pending@).contains(pending@[0]@));
                    }
                }
            }
            _ => {}
        }
        if completed {
            self.state = StateTy::Free;
            out.push(
                Action::Send(send_ctl(me, ServiceId::stormd(), CtlMsg::ProcessingComplete)),
            );
        }
        Ok(())
    }

    /// Takes in the container description a peer delivered: the worker
    /// must be awaiting it. The header and the container are persisted
    /// under the container's content-derived id, the store is asked which
    /// of the listed chunks it does not yet hold, and exactly those are
    /// requested from the peer; the worker then collects chunks, with the
    /// pending set possibly already empty. The description is refused with
    /// `InvalidState` in any other phase.
    pub fn handle_container(&mut self, container: Container, out: &mut Vec<Action>) -> (r: Result<
        (),
        DaemonError,
    >)
        requires
            old(self).wf(),
            container.wf(),
        ensures
            final(self).wf(),
            final(self).id == old(self).id,
            match r {
                Ok(_) => {
                    let info = old(self).state.info_opt_spec()->Some_0;
                    let cid = crate::digest::container_id_of(container@);
                    let pend = final(self).state.pending_spec();
                    let n = old(out)@.len();
                    let has_client = info.client_id is Some;
                    &&& old(self).state.state_name_spec() == StateTy::Receive(
                        ReceiveStateName::AwaitingContainer,
                    )
                    &&& final(self).store.headers_v() == old(self).store.headers_v().insert(
                        cid,
                        container.header@,
                    )
                    &&& final(self).store.containers_v() == old(self).store.containers_v().insert(
                        cid,
                        container@,
                    )
                    &&& final(self).store.chunks_v() == old(self).store.chunks_v()
                    &&& final(self).state.state_name_spec() == StateTy::Receive(
                        ReceiveStateName::ReceivingChunks,
                    )
                    &&& final(self).state.info_opt_spec() == Some(info)
                    &&& id_set(pend) == id_set(container@.chunks).difference(
                        old(self).store.chunks_v().dom(),
                    )
                    &&& final(self).state.total_spec() == pend.len()
                    &&& final(out)@.len() == n + (if has_client {
                        3int
                    } else {
                        1
                    })
                    &&& (has_client ==> final(out)@[n as int] == Action::Send(
                        send_rpc_spec(
                            ServiceId::Transfer(old(self).id),
                            info.client_id->Some_0,
                            RpcMsg::Progress(ProgressNote::ContainerReceived),
                        ),
                    ))
                    &&& (has_client ==> final(out)@[n as int + 1] == Action::Send(
                        send_rpc_spec(
                            ServiceId::Transfer(old(self).id),
                            info.client_id->Some_0,
                            RpcMsg::Progress(ProgressNote::RetrievingChunks(pend.len() as usize)),
                        ),
                    ))
                    &&& match final(out)@.last() {
                        Action::Send(e) => {
                            &&& e.bus == ServiceBus::Msg
                            &&& e.source == ServiceId::Transfer(old(self).id)
                            &&& e.dest == ServiceId::Peer(info.remote_id)
                            &&& match e.msg {
                                BusMsg::Bifrost(p2p::Messages::PullChunk(cp)) => {
                                    &&& cp.app == info.app_id
                                    &&& cp.message_id == info.id.message_id
                                    &&& cp.container_id == info.id.container_id
                                    &&& cp.chunk_ids@ == pend
                                },
                                _ => false,
                            }
                        },
                        _ => false,
                    }
                },
                Err(e) => {
                    &&& old(self).state.state_name_spec() != StateTy::Receive(
                        ReceiveStateName::AwaitingContainer,
                    )
                    &&& e == DaemonError::TransferAutomation(
                        AutomationError::InvalidState {
                            expected: StateTy::Receive(ReceiveStateName::AwaitingContainer),
                            found: old(self).state.state_name_spec(),
                        },
                    )
                    &&& *final(self) == *old(self)
                    &&& final(out)@ == old(out)@
                },
            },
    {
        let me = self.identity();
        let info = match &self.state {
            StateTy::Receive(ReceiveState::AwaitingContainer { info }) => *info,
            other => {
                return Err(
                    DaemonError::TransferAutomation(
                        AutomationError::InvalidState {
                            expected: StateTy::Receive(ReceiveStateName::AwaitingContainer),
                            found: other.state_name(),
                        },
                    ),
                );
            }
        };
        if let Some(c) = info.client_id {
            out.push(
                Action::Send(send_rpc(me, c, RpcMsg::Progress(ProgressNote::ContainerReceived))),
            );
        }
        let cid = container.container_id();
        let header_copy = container.header.duplicate();
        self.store.store_header(&cid, header_copy);
        let pending = self.store.filter_unknown(&container.chunks);
        self.store.store_container(&cid, container);
        let total = pending.len();
        if let Some(c) = info.client_id {
            out.push(
                Action::Send(
                    send_rpc(me, c, RpcMsg::Progress(ProgressNote::RetrievingChunks(total))),
                ),
            );
        }
        let chunk_ids = dup_ids(&pending);
        self.state = StateTy::Receive(ReceiveState::ReceivingChunks { info, total, pending });
        out.push(
            Action::Send(
                send_p2p(
                    me,
                    info.remote_id,
                    p2p::Messages::PullChunk(
                        p2p::ChunkPull {
                            app: info.app_id,
                            message_id: info.id.message_id,
                            container_id: info.id.container_id,
                            chunk_ids,
                        },
                    ),
                ),
            ),
        );
        Ok(())
    }

    /// Announces a stored container to a peer: stateless request/response
    /// work, allowed only while free and leaving the worker unchanged. The
    /// header is read from the store — an unknown container is refused —
    /// and sent to the peer, then completion is reported to the
    /// orchestrator. The surrounding process reports a delivery failure to
    /// the client, with no note on success.
    pub fn handle_announce(
        &mut self,
        client_id: Option<ClientId>,
        storm_app: AppId,
        remote_id: NodeId,
        id: ContainerFullId,
        out: &mut Vec<Action>,
    ) -> (r: Result<(), DaemonError>)
        requires
            old(self).wf(),
        ensures
            final(self).wf(),
            *final(self) == *old(self),
            match r {
                Ok(_) => {
                    let n = old(out)@.len();
                    &&& old(self).state matches StateTy::Free
                    &&& old(self).store.headers_v().contains_key(id.container_id@)
                    &&& final(out)@.len() == n + 2
                    &&& match final(out)@[n as int] {
                        Action::Send(e) => {
                            &&& e.bus == ServiceBus::Msg
                            &&& e.source == ServiceId::Transfer(old(self).id)
                            &&& e.dest == ServiceId::Peer(remote_id)
                            &&& match e.msg {
                                BusMsg::Bifrost(p2p::Messages::AnnounceContainer(am)) => {
                                    &&& am.app == storm_app
                                    &&& am.data.id == id
                                    &&& am.data.header@ == old(self).store.headers_v()[id.container_id@]
                                },
                                _ => false,
                            }
                        },
                        _ => false,
                    }
                    &&& final(out)@[n as int + 1] == Action::Send(
                        send_ctl_spec(
                            ServiceId::Transfer(old(self).id),
                            ServiceId::MsgApp(crate::bus::MSG_APP_STORM),
                            CtlMsg::ProcessingComplete,
                        ),
                    )
                },
                Err(e) => {
                    &&& final(out)@ == old(out)@
                    &&& if !(old(self).state matches StateTy::Free) {
                        e == DaemonError::TransferAutomation(
                            AutomationError::InvalidState {
                                expected: StateTy::Free,
                                found: old(self).state.state_name_spec(),
                            },
                        )
                    } else {
                        &&& !old(self).store.headers_v().contains_key(id.container_id@)
                        &&& e == DaemonError::UnknownContainer(id.container_id)
                    }
                },
            },
    {
        let _ = client_id;
        match self.state.require_state(StateTy::Free) {
            Err(e) => {
                return Err(DaemonError::TransferAutomation(e));
            }
            Ok(_) => {}
        }
        let me = self.identity();
        let header = match self.store.retrieve_header(&id.container_id) {
            Some(h) => h.duplicate(),
            None => {
                return Err(DaemonError::UnknownContainer(id.container_id));
            }
        };
        out.push(
            Action::Send(
                send_p2p(
                    me,
                    remote_id,
                    p2p::Messages::AnnounceContainer(
                        p2p::AppMsg {
                            app: storm_app,
                            data: crate::ids::ContainerInfo { header, id },
                        },
                    ),
                ),
            ),
        );
        out.push(Action::Send(send_ctl(me, ServiceId::stormd(), CtlMsg::ProcessingComplete)));
        Ok(())
    }

    /// Sends a stored container to a peer: stateless request/response work,
    /// allowed only while free and leaving the worker unchanged. The
    /// container is read from the store — an unknown container is refused —
    /// and pushed to the peer, then completion is reported to the
    /// orchestrator. The surrounding process reports a delivery failure to
    /// the client, with no note on success.
    pub fn handle_send_container(
        &mut self,
        client_id: Option<ClientId>,
        storm_app: AppId,
        remote_id: NodeId,
        id: ContainerFullId,
        out: &mut Vec<Action>,
    ) -> (r: Result<(), DaemonError>)
        requires
            old(self).wf(),
        ensures
            final(self).wf(),
            *final(self) == *old(self),
            match r {
                Ok(_) => {
                    let n = old(out)@.len();
                    &&& old(self).state matches StateTy::Free
                    &&& old(self).store.containers_v().contains_key(id.container_id@)
                    &&& final(out)@.len() == n + 2
                    &&& match final(out)@[n as int] {
                        Action::Send(e) => {
                            &&& e.bus == ServiceBus::Msg
                            &&& e.source == ServiceId::Transfer(old(self).id)
                            &&& e.dest == ServiceId::Peer(remote_id)
                            &&& match e.msg {
                                BusMsg::Bifrost(p2p::Messages::PushContainer(am)) => {
                                    &&& am.app == storm_app
                                    &&& am.data@ == old(self).store.containers_v()[id.container_id@]
                                },
                                _ => false,
                            }
                        },
                        _ => false,
                    }
                    &&& final(out)@[n as int + 1] == Action::Send(
                        send_ctl_spec(
                            ServiceId::Transfer(old(self).id),
                            ServiceId::MsgApp(crate::bus::MSG_APP_STORM),
                            CtlMsg::ProcessingComplete,
                        ),
                    )
                },
                Err(e) => {
                    &&& final(out)@ == old(out)@
                    &&& if !(old(self).state matches StateTy::Free) {
                        e == DaemonError::TransferAutomation(
                            AutomationError::InvalidState {
                                expected: StateTy::Free,
                                found: old(self).state.state_name_spec(),
                            },
                        )
                    } else {
                        &&& !old(self).store.containers_v().contains_key(id.container_id@)
                        &&& e == DaemonError::UnknownContainer(id.container_id)
                    }
                },
            },
    {
        let _ = client_id;
        match self.state.require_state(StateTy::Free) {
            Err(e) => {
                return Err(DaemonError::TransferAutomation(e));
            }
            Ok(_) => {}
        }
        let me = self.identity();
        let container = match self.store.retrieve_container(&id.container_id) {
            Some(c) => c.duplicate(),
            None => {
                return Err(DaemonError::UnknownContainer(id.container_id));
            }
        };
        out.push(
            Action::Send(
                send_p2p(
                    me,
                    remote_id,
                    p2p::Messages::PushContainer(p2p::AppMsg { app: storm_app, data: container }),
                ),
            ),
        );
        out.push(Action::Send(send_ctl(me, ServiceId::stormd(), CtlMsg::ProcessingComplete)));
        Ok(())
    }

    /// Fulfils a peer's request for specific chunks: stateless work,
    /// allowed only while free and leaving the worker unchanged. Each
    /// requested chunk the store holds is pushed to the peer in request
    /// order; unavailable chunks are silently skipped — best effort, the
    /// peer may re-request — and completion is reported to the
    /// orchestrator.
    pub fn handle_send_chunks(
        &mut self,
        storm_app: AppId,
        remote_id: NodeId,
        container_id: ContainerId,
        chunk_ids: Vec<ChunkId>,
        out: &mut Vec<Action>,
    ) -> (r: Result<(), DaemonError>)
        requires
            old(self).wf(),
        ensures
            final(self).wf(),
            *final(self) == *old(self),
            match r {
                Ok(_) => {
                    let n = old(out)@.len();
                    let held = old(self).store.chunks_v().dom();
                    let m = count_present(chunk_ids@, held);
                    &&& old(self).state matches StateTy::Free
                    &&& final(out)@.len() == n + m + 1
                    &&& (forall|j: int|
                        0 <= j < m ==> match #[trigger] final(out)@[n + j] {
                            Action::Send(e) => {
                                &&& e.bus == ServiceBus::Msg
                                &&& e.source == ServiceId::Transfer(old(self).id)
                                &&& e.dest == ServiceId::Peer(remote_id)
                                &&& match e.msg {
                                    BusMsg::Bifrost(p2p::Messages::PushChunk(cp)) => {
                                        &&& cp.app == storm_app
                                        &&& cp.container_id == container_id
                                        &&& cp.chunk_id@ == nth_present(chunk_ids@, held, j)
                                        &&& cp.chunk@ == old(self).store.chunks_v()[cp.chunk_id@]
                                    },
                                    _ => false,
                                }
                            },
                            _ => false,
                        })
                    &&& final(out)@[n + m] == Action::Send(
                        send_ctl_spec(
                            ServiceId::Transfer(old(self).id),
                            ServiceId::MsgApp(crate::bus::MSG_APP_STORM),
                            CtlMsg::ProcessingComplete,
                        ),
                    )
                },
                Err(e) => {
                    &&& !(old(self).state matches StateTy::Free)
                    &&& e == DaemonError::TransferAutomation(
                        AutomationError::InvalidState {
                            expected: StateTy::Free,
                            found: old(self).state.state_name_spec(),
                        },
                    )
                    &&& final(out)@ == old(out)@
                },
            },
    {
        match self.state.require_state(StateTy::Free) {
            Err(e) => {
                return Err(DaemonError::TransferAutomation(e));
            }
            Ok(_) => {}
        }
        let me = self.identity();
        let ghost held = self.store.chunks_v().dom();
        let ghost n = out@.len();
        let mut i: usize = 0;
        while i < chunk_ids.len()
            invariant
                self.wf(),
                me == ServiceId::Transfer(self.id),
                i <= chunk_ids@.len(),
                held == self.store.chunks_v().dom(),
                out@.len() == n + count_present(chunk_ids@.take(i as int), held),
                n <= out@.len(),
                forall|j: int|
                    0 <= j < n ==> #[trigger] out@[j] == old(out)@[j],
                forall|j: int|
                    0 <= j < count_present(chunk_ids@.take(i as int), held) ==> match #[trigger] out@[n
                        + j] {
                        Action::Send(e) => {
                            &&& e.bus == ServiceBus::Msg
                            &&& e.source == ServiceId::Transfer(self.id)
                            &&& e.dest == ServiceId::Peer(remote_id)
                            &&& match e.msg {
                                BusMsg::Bifrost(p2p::Messages::PushChunk(cp)) => {
                                    &&& cp.app == storm_app
                                    &&& cp.container_id == container_id
                                    &&& cp.chunk_id@ == nth_present(chunk_ids@.take(i as int), held, j)
                                    &&& cp.chunk@ == self.store.chunks_v()[cp.chunk_id@]
                                },
                                _ => false,
                            }
                        },
                        _ => false,
                    },
            decreases chunk_ids@.len() - i,
        {
            proof {
                lemma_count_present_bound(chunk_ids@.take(i as int), held);
                assert(chunk_ids@.take(i + 1).drop_last() =~= chunk_ids@.take(i as int));
                assert(chunk_ids@.take(i + 1).last() == chunk_ids@[i as int]);
            }
            let ghost prevcount = count_present(chunk_ids@.take(i as int), held);
            let ghost prevout = out@;
            if let Some(chunk) = self.store.retrieve_chunk(&chunk_ids[i]) {
                out.push(
                    Action::Send(
                        send_p2p(
                            me,
                            remote_id,
                            p2p::Messages::PushChunk(
                                p2p::ChunkPush {
                                    app: storm_app,
                                    container_id,
                                    chunk_id: chunk_ids[i],
                                    chunk: chunk.duplicate(),
                                },
                            ),
                        ),
                    ),
                );
                proof {
                    assert(count_present(chunk_ids@.take(i + 1), held) == prevcount + 1);
                    assert forall|j: int|
                        0 <= j < prevcount implies nth_present(chunk_ids@.take(i + 1), held, j)
                        == nth_present(chunk_ids@.take(i as int), held, j) by {}
                    assert(nth_present(chunk_ids@.take(i + 1), held, prevcount)
                        == chunk_ids@[i as int]@);
                    assert forall|j: int| 0 <= j < prevcount + 1 implies #[trigger] out@[n + j]
                        == (if j < prevcount {
                        prevout[n + j]
                    } else {
                        out@.last()
                    }) by {
                        assert(out@ == prevout.push(out@.last()));
                    }
                    assert forall|j: int|
                        0 <= j < count_present(chunk_ids@.take(i + 1), held) implies match #[trigger] out@[n
                        + j] {
                        Action::Send(e) => {
                            &&& e.bus == ServiceBus::Msg
                            &&& e.source == ServiceId::Transfer(self.id)
                            &&& e.dest == ServiceId::Peer(remote_id)
                            &&& match e.msg {
                                BusMsg::Bifrost(p2p::Messages::PushChunk(cp)) => {
                                    &&& cp.app == storm_app
                                    &&& cp.container_id == container_id
                                    &&& cp.chunk_id@ == nth_present(chunk_ids@.take(i + 1), held, j)
                                    &&& cp.chunk@ == self.store.chunks_v()[cp.chunk_id@]
                                },
                                _ => false,
                            }
                        },
                        _ => false,
                    } by {
                        if j < prevcount {
                            assert(out@[n + j] == prevout[n + j]);
                            assert(nth_present(chunk_ids@.take(i + 1), held, j) == nth_present(
                                chunk_ids@.take(i as int),
                                held,
                                j,
                            ));
                        } else {
                            assert(out@[n + j] == out@.last());
                        }
                    }
                }
            } else {
                proof {
                    assert(count_present(chunk_ids@.take(i + 1), held) == prevcount);
                    assert forall|j: int|
                        0 <= j < prevcount implies nth_present(chunk_ids@.take(i + 1), held, j)
                        == nth_present(chunk_ids@.take(i as int), held, j) by {}
                }
            }
            i = i + 1;
        }
        proof {
            assert(chunk_ids@.take(chunk_ids@.len() as int) =~= chunk_ids@);
        }
        out.push(Action::Send(send_ctl(me, ServiceId::stormd(), CtlMsg::ProcessingComplete)));
        Ok(())
    }

    /// Dispatches one control-bus instruction to the matching handler.
    /// Registration and completion notices travel the other way and are
    /// refused here. The instruction handlers above state what each one
    /// does exactly; this summary pins the phase transitions down: a failed
    /// instruction changes nothing, a successful one moves the state
    /// machine as `ctl_ok_transition` says.
    pub fn handle_ctl(&mut self, source: ServiceId, message: CtlMsg, out: &mut Vec<Action>) -> (r:
        Result<(), DaemonError>)
        requires
            old(self).wf(),
            message.payload_wf(),
        ensures
            final(self).wf(),
            final(self).id == old(self).id,
            r is Ok <==> ctl_ok_cond(message, *old(self)),
            r is Ok ==> ctl_ok_transition(
                message,
                old(self).state.state_name_spec(),
                final(self).state.state_name_spec(),
            ),
            r is Err ==> *final(self) == *old(self) && final(out)@ == old(out)@,
            (message matches CtlMsg::Hello || message matches CtlMsg::ProcessingComplete
                || message matches CtlMsg::ProcessingFailed) ==> r == Err::<(), DaemonError>(
                DaemonError::RequestNotSupported(ServiceBus::Ctl),
            ),
    {
        let _ = source;
        match message {
            CtlMsg::GetContainer(acm) => {
                let remote_id = acm.remote_id;
                let client_id = acm.client_id;
                let storm_app = acm.data.storm_app;
                let container_id = acm.data.container_id;
                self.handle_receive(client_id, storm_app, remote_id, container_id, out)
            }
            CtlMsg::ProcessContainer(container) => self.handle_container(container, out),
            CtlMsg::ProcessChunk(chunk) => self.handle_chunk(chunk, out),
            CtlMsg::AnnounceContainer(acm) => {
                let remote_id = acm.remote_id;
                let client_id = acm.client_id;
                let storm_app = acm.data.storm_app;
                let container_id = acm.data.container_id;
                self.handle_announce(client_id, storm_app, remote_id, container_id, out)
            }
            CtlMsg::SendContainer(acm) => {
                let remote_id = acm.remote_id;
                let client_id = acm.client_id;
                let storm_app = acm.data.storm_app;
                let container_id = acm.data.container_id;
                self.handle_send_container(client_id, storm_app, remote_id, container_id, out)
            }
            CtlMsg::SendChunks(am) => {
                let remote_id = am.remote_id;
                let storm_app = am.data.storm_app;
                let container_id = am.data.container_id;
                let chunk_ids = am.data.chunk_ids;
                self.handle_send_chunks(storm_app, remote_id, container_id, chunk_ids, out)
            }
            wrong_msg => {
                let _ = wrong_msg;
                Err(DaemonError::wrong_esb_msg(ServiceBus::Ctl))
            }
        }
    }

    /// Routes one delivered message: a worker accepts only control
    /// messages, on the control bus; anything else is a protocol violation
    /// that aborts the instruction and changes nothing.
    pub fn handle(
        &mut self,
        bus_id: ServiceBus,
        source: ServiceId,
        request: BusMsg,
        out: &mut Vec<Action>,
    ) -> (r: Result<(), DaemonError>)
        requires
            old(self).wf(),
            request.payload_wf(),
        ensures
            final(self).wf(),
            final(self).id == old(self).id,
            !(bus_id == ServiceBus::Ctl && request matches BusMsg::Ctl(_)) ==> {
                &&& r == Err::<(), DaemonError>(DaemonError::RequestNotSupported(bus_id))
                &&& *final(self) == *old(self)
                &&& final(out)@ == old(out)@
            },
            request matches BusMsg::Ctl(m) ==> (bus_id == ServiceBus::Ctl ==> {
                &&& (r is Ok <==> ctl_ok_cond(m, *old(self)))
                &&& (r is Ok ==> ctl_ok_transition(
                    m,
                    old(self).state.state_name_spec(),
                    final(self).state.state_name_spec(),
                ))
                &&& (r is Err ==> *final(self) == *old(self) && final(out)@ == old(out)@)
            }),
    {
        match (bus_id, request) {
            (ServiceBus::Ctl, BusMsg::Ctl(msg)) => self.handle_ctl(source, msg, out),
            (bus, msg) => {
                let _ = msg;
                Err(DaemonError::wrong_esb_msg(bus))
            }
        }
    }
}

/// When a control instruction is owed success: a receive or stateless
/// send needs a free worker, a container description needs a worker
/// awaiting it, a chunk needs a worker collecting, and announce or send
/// work additionally needs the named container in the store. Registration
/// and completion notices never belong on a worker.
pub open spec fn ctl_ok_cond(message: CtlMsg, pre: Runtime) -> bool {
    match message {
        CtlMsg::GetContainer(_) => pre.state matches StateTy::Free,
        CtlMsg::ProcessContainer(_) => pre.state.state_name_spec() == StateTy::Receive(
            ReceiveStateName::AwaitingContainer,
        ),
        CtlMsg::ProcessChunk(_) => pre.state.state_name_spec() == StateTy::Receive(
            ReceiveStateName::ReceivingChunks,
        ),
        CtlMsg::AnnounceContainer(acm) => pre.state matches StateTy::Free
            && pre.store.headers_v().contains_key(acm.data.container_id.container_id@),
        CtlMsg::SendContainer(acm) => pre.state matches StateTy::Free
            && pre.store.containers_v().contains_key(acm.data.container_id.container_id@),
        CtlMsg::SendChunks(_) => pre.state matches StateTy::Free,
        _ => false,
    }
}

/// How a successful control instruction moves the state machine: a receive
/// starts only from `Free`; a container description moves the worker from
/// awaiting it to collecting chunks; a chunk keeps collecting or frees the
/// worker; announce and send work leaves a free worker free. Registration
/// and completion notices never succeed here.
pub open spec fn ctl_ok_transition(message: CtlMsg, pre: StateName, post: StateName) -> bool {
    match message {
        CtlMsg::GetContainer(_) => pre == StateTy::<ReceiveStateName>::Free && post
            == StateTy::Receive(ReceiveStateName::AwaitingContainer),
        CtlMsg::ProcessContainer(_) => pre == StateTy::Receive(ReceiveStateName::AwaitingContainer)
            && post == StateTy::Receive(ReceiveStateName::ReceivingChunks),
        CtlMsg::ProcessChunk(_) => pre == StateTy::Receive(ReceiveStateName::ReceivingChunks) && (
        post == StateTy::<ReceiveStateName>::Free || post == StateTy::Receive(
            ReceiveStateName::ReceivingChunks,
        )),
        CtlMsg::AnnounceContainer(_) => pre == StateTy::<ReceiveStateName>::Free && post == pre,
        CtlMsg::SendContainer(_) => pre == StateTy::<ReceiveStateName>::Free && post == pre,
        CtlMsg::SendChunks(_) => pre == StateTy::<ReceiveStateName>::Free && post == pre,
        _ => false,
    }
}

/// Striking a digest that the pending set does not hold leaves the set
/// exactly as it was: together with the store's idempotent upsert
/// (`store::lemma_store_idempotent`), a repeated chunk delivery changes no
/// observable state and raises no error.
pub proof fn lemma_remove_absent(pending: Set<Seq<u8>>, id: Seq<u8>)
    requires
        !pending.contains(id),
    ensures
        pending.remove(id) == pending,
{
    assert(pending.remove(id) =~= pending);
}

/// The pending set left after a sequence of chunk deliveries, each striking
/// its digest as `handle_chunk` does.
pub open spec fn pending_after(pending: Set<Seq<u8>>, digests: Seq<Seq<u8>>) -> Set<Seq<u8>>
    decreases digests.len(),
{
    if digests.len() == 0 {
        pending
    } else {
        pending_after(pending.remove(digests[0]), digests.drop_first())
    }
}

/// Delivering a sequence of chunks strikes exactly the delivered digests,
/// whatever their order.
pub proof fn lemma_pending_after_is_difference(pending: Set<Seq<u8>>, digests: Seq<Seq<u8>>)
    ensures
        pending_after(pending, digests) == pending.difference(digests.to_set()),
    decreases digests.len(),
{
    if digests.len() == 0 {
        assert(pending.difference(digests.to_set()) =~= pending);
    } else {
        let first = digests[0];
        let rest = digests.drop_first();
        lemma_pending_after_is_difference(pending.remove(first), rest);
        assert(pending.remove(first).difference(rest.to_set()) =~= pending.difference(
            digests.to_set(),
        )) by {
            assert forall|x: Seq<u8>| #[trigger] digests.to_set().contains(x) implies x == first
                || rest.to_set().contains(x) by {
                let i = choose|i: int| 0 <= i < digests.len() && digests[i] == x;
                if i > 0 {
                    assert(rest[i - 1] == x);
                }
            }
            assert forall|x: Seq<u8>| #[trigger] rest.to_set().contains(x) implies digests.to_set().contains(
                x,
            ) by {
                let i = choose|i: int| 0 <= i < rest.len() && rest[i] == x;
                assert(digests[i + 1] == x);
            }
            assert(digests.to_set().contains(first)) by {
                assert(digests[0] == first);
            }
        }
    }
}

/// Completion law: the pending set left by a chunk-delivery sequence, and
/// with it whether the transfer completed, is the same for every
/// permutation of that sequence — completion is decided by emptiness of the
/// pending set alone, never by arrival order.
pub proof fn lemma_completion_order_irrelevant(
    pending: Set<Seq<u8>>,
    digests1: Seq<Seq<u8>>,
    digests2: Seq<Seq<u8>>,
)
    requires
        digests1.to_multiset() == digests2.to_multiset(),
    ensures
        pending_after(pending, digests1) == pending_after(pending, digests2),
        (pending_after(pending, digests1) == Set::<Seq<u8>>::empty()) <==> (pending_after(
            pending,
            digests2,
        ) == Set::<Seq<u8>>::empty()),
{
    digests1.to_multiset_ensures();
    digests2.to_multiset_ensures();
    assert(digests1.to_set() =~= digests2.to_set()) by {
        assert forall|x: Seq<u8>| #[trigger] digests1.contains(x) implies digests2.contains(x) by {
            assert(digests1.to_multiset().count(x) > 0);
        }
        assert forall|x: Seq<u8>| #[trigger] digests2.contains(x) implies digests1.contains(x) by {
            assert(digests2.to_multiset().count(x) > 0);
        }
    }
    lemma_pending_after_is_difference(pending, digests1);
    lemma_pending_after_is_difference(pending, digests2);
}

} // verus!
