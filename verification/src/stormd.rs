//! The orchestrator: worker registration, task queuing and assignment.
//!
//! Transfer requests arrive from three surfaces — remote peers, local
//! clients and application extensions — and join a strict FIFO queue. A
//! pool of transfer workers is split into a free queue and a busy set; one
//! `pick_task` call assigns the queue head to the free-pool head, records
//! which container the worker now serves so that follow-up peer messages
//! reach it directly, and never hands work to a busy worker. A worker's
//! completion or failure notice frees it and immediately re-invokes
//! `pick_task` — the system's only retry mechanism. Because every mutation
//! of the pools or the queue is followed by such a pick, a quiescent
//! orchestrator never holds both a queued task and an idle worker.

use vstd::prelude::*;

use crate::bus::{
    send_ctl, send_ctl_spec, send_ext, send_p2p, send_p2p_spec, send_rpc, send_rpc_spec, Action, BusMsg,
    CtlMsg, ChunkSend, Daemon, Envelope, ServiceBus, ServiceId, AddressedClientMsg, MSG_APP_STORM,
};
use crate::error::DaemonError;
use crate::ext::{p2p_message_spec, remote_id_spec, storm_ext_msg_spec, ExtMsg};
use crate::idmap::IdMap;
use crate::ids::{AppId, ClientId, DaemonId, NodeId};
use crate::p2p;
use crate::rpc::{AddressedMsg, AppContainer, ProgressNote, RpcMsg};

verus! {

/// No worker id appears twice.
pub open spec fn distinct_u64s(v: Seq<u64>) -> bool {
    forall|i: int, j: int| 0 <= i < j < v.len() ==> v[i] != v[j]
}

/// No application id appears twice.
pub open spec fn distinct_u16s(v: Seq<u16>) -> bool {
    forall|i: int, j: int| 0 <= i < j < v.len() ==> v[i] != v[j]
}

/// Whether a pool holds the given worker id.
fn contains_u64(v: &Vec<u64>, x: u64) -> (r: bool)
    ensures
        r == v@.contains(x),
{
    let mut i: usize = 0;
    while i < v.len()
        invariant
            i <= v@.len(),
            forall|j: int| 0 <= j < i ==> v@[j] != x,
        decreases v@.len() - i,
    {
        if v[i] == x {
            return true;
        }
        i = i + 1;
    }
    false
}

/// Whether the registry holds the given application id.
fn contains_u16(v: &Vec<u16>, x: u16) -> (r: bool)
    ensures
        r == v@.contains(x),
{
    let mut i: usize = 0;
    while i < v.len()
        invariant
            i <= v@.len(),
            forall|j: int| 0 <= j < i ==> v@[j] != x,
        decreases v@.len() - i,
    {
        if v[i] == x {
            return true;
        }
        i = i + 1;
    }
    false
}

/// One occurrence of a value was taken out of the sequence, or it held
/// none and stands unchanged.
pub open spec fn seq_removed_once(pre: Seq<u64>, post: Seq<u64>, x: u64) -> bool {
    if pre.contains(x) {
        exists|i: int| 0 <= i < pre.len() && pre[i] == x && post == pre.remove(i)
    } else {
        post == pre
    }
}

/// Takes the first occurrence of a worker id out of a pool; a pool without
/// it stands unchanged.
fn remove_once_u64(v: &mut Vec<u64>, x: u64)
    requires
        distinct_u64s(old(v)@),
    ensures
        distinct_u64s(final(v)@),
        seq_removed_once(old(v)@, final(v)@, x),
        !final(v)@.contains(x),
        forall|y: u64| y != x ==> (final(v)@.contains(y) == old(v)@.contains(y)),
{
    let mut i: usize = 0;
    while i < v.len()
        invariant
            distinct_u64s(v@),
            v@ == old(v)@,
            i <= v@.len(),
            forall|j: int| 0 <= j < i ==> v@[j] != x,
        decreases v@.len() - i,
    {
        if v[i] == x {
            let ghost pre = v@;
            v.remove(i);
            proof {
                assert(pre.contains(x)) by {
                    assert(pre[i as int] == x);
                }
                assert(distinct_u64s(v@)) by {
                    assert forall|a: int, b: int| 0 <= a < b < v@.len() implies v@[a] != v@[b] by {
                        let a0: int = if a < i { a } else { a + 1 };
                        let b0: int = if b < i { b } else { b + 1 };
                        assert(pre[a0] != pre[b0]);
                    }
                }
                assert(!v@.contains(x)) by {
                    assert forall|j: int| 0 <= j < v@.len() implies v@[j] != x by {
                        let j0: int = if j < i { j } else { j + 1 };
                        assert(v@[j] == pre[j0]);
                        if j0 != i {
                            assert(pre[j0] != pre[i as int] || j0 == i);
                        }
                    }
                }
                assert forall|y: u64| y != x implies (v@.contains(y) == pre.contains(y)) by {
                    if pre.contains(y) {
                        let j = choose|j: int| 0 <= j < pre.len() && pre[j] == y;
                        if j < i {
                            assert(v@[j] == y);
                        } else {
                            assert(j != i);
                            assert(v@[j - 1] == y);
                        }
                    }
                    if v@.contains(y) {
                        let j = choose|j: int| 0 <= j < v@.len() && v@[j] == y;
                        let j0: int = if j < i { j } else { j + 1 };
                        assert(pre[j0] == y);
                    }
                }
            }
            return ;
        }
        i = i + 1;
    }
}

/// Copies the application registry.
fn dup_apps(v: &Vec<AppId>) -> (r: Vec<AppId>)
    ensures
        r@ == v@,
{
    let mut r: Vec<AppId> = Vec::new();
    let mut i: usize = 0;
    while i < v.len()
        invariant
            i <= v@.len(),
            r@ == v@.take(i as int),
        decreases v@.len() - i,
    {
        r.push(v[i]);
        assert(r@ =~= v@.take(i + 1));
        i = i + 1;
    }
    assert(v@.take(v@.len() as int) =~= v@);
    r
}

/// How well a `pick_task` call went.
#[derive(Clone, Copy, PartialEq, Eq, Debug, Structural)]
pub enum PickOutcome {
    /// The task queue was empty; nothing to do.
    Idle,
    /// Tasks are queued but no worker is free; the caller decides whether
    /// to add capacity.
    Unavailable,
    /// The queue head was assigned to the free-pool head.
    Assigned,
}

/// The container a queued task concerns, when follow-up peer messages must
/// reach the worker it is assigned to.
pub open spec fn task_key(task: CtlMsg) -> Option<Seq<u8>> {
    match task {
        CtlMsg::GetContainer(acm) => Some(acm.data.container_id.container_id@),
        CtlMsg::SendContainer(acm) => Some(acm.data.container_id.container_id@),
        _ => None,
    }
}

/// The orchestrator: the registered applications, the worker pools, the
/// active-transfer table and the pending-task queue.
pub struct Runtime {
    /// Applications registered for announcement, each at most once.
    pub registered_apps: Vec<AppId>,
    /// Free workers, in the order they became free; the head is assigned
    /// next.
    pub transferd_free: Vec<DaemonId>,
    /// Workers currently running a task.
    pub transferd_busy: Vec<DaemonId>,
    /// Which worker serves which container, for follow-up correlation.
    pub container_transfers: IdMap<DaemonId>,
    /// Transfer instructions awaiting a worker, in arrival order.
    pub ctl_queue: Vec<CtlMsg>,
}

/// The envelope that assigns the queue head to the free-pool head.
pub open spec fn assigned_envelope(pre: Runtime) -> Envelope {
    send_ctl_spec(
        ServiceId::MsgApp(MSG_APP_STORM),
        ServiceId::Transfer(pre.transferd_free@[0]),
        pre.ctl_queue@[0],
    )
}

/// One assignment: the queue head goes to the free-pool head, which moves
/// to the busy set; a task that names a container is recorded in the
/// active-transfer table under that container.
pub open spec fn assigned_step(pre: Runtime, post: Runtime) -> bool {
    &&& pre.ctl_queue@.len() > 0
    &&& pre.transferd_free@.len() > 0
    &&& post.ctl_queue@ == pre.ctl_queue@.drop_first()
    &&& post.transferd_free@ == pre.transferd_free@.drop_first()
    &&& post.transferd_busy@ == pre.transferd_busy@.push(pre.transferd_free@[0])
    &&& post.registered_apps@ == pre.registered_apps@
    &&& post.container_transfers@ == (match task_key(pre.ctl_queue@[0]) {
        Some(k) => pre.container_transfers@.insert(k, pre.transferd_free@[0]),
        None => pre.container_transfers@,
    })
}

/// What one `pick_task` call does: nothing on an empty queue, nothing when
/// no worker is free, one assignment otherwise.
pub open spec fn pick_step(
    pre: Runtime,
    post: Runtime,
    out_pre: Seq<Action>,
    out_post: Seq<Action>,
) -> bool {
    if pre.ctl_queue@.len() == 0 {
        post == pre && out_post == out_pre
    } else if pre.transferd_free@.len() == 0 {
        post == pre && out_post == out_pre
    } else {
        assigned_step(pre, post) && out_post == out_pre.push(Action::Send(assigned_envelope(pre)))
    }
}

impl Runtime {
    /// The pools hold each worker at most once and never share one; the
    /// active-transfer table keys each container at most once.
    pub open spec fn wf(&self) -> bool {
        &&& distinct_u16s(self.registered_apps@)
        &&& distinct_u64s(self.transferd_free@)
        &&& distinct_u64s(self.transferd_busy@)
        &&& forall|d: u64|
            self.transferd_free@.contains(d) ==> !self.transferd_busy@.contains(d)
        &&& self.container_transfers.wf()
    }

    /// No worker sits idle while a task is queued: every mutation of the
    /// pools or the queue is followed by a `pick_task`, so a quiescent
    /// orchestrator holds an empty queue or an empty free pool.
    pub open spec fn dispatch_invariant(&self) -> bool {
        self.ctl_queue@.len() == 0 || self.transferd_free@.len() == 0
    }

    /// A fresh orchestrator: no applications, no workers, nothing queued.
    pub fn init() -> (r: Runtime)
        ensures
            r.wf(),
            r.dispatch_invariant(),
            r.registered_apps@.len() == 0,
            r.transferd_free@.len() == 0,
            r.transferd_busy@.len() == 0,
            r.container_transfers@ == Map::<Seq<u8>, DaemonId>::empty(),
            r.ctl_queue@.len() == 0,
    {
        Runtime {
            registered_apps: Vec::new(),
            transferd_free: Vec::new(),
            transferd_busy: Vec::new(),
            container_transfers: IdMap::new(),
            ctl_queue: Vec::new(),
        }
    }

    /// The orchestrator's own address.
    pub fn identity(&self) -> (r: ServiceId)
        ensures
            r == ServiceId::MsgApp(MSG_APP_STORM),
    {
        ServiceId::stormd()
    }

    /// What the orchestrator asks for once its buses are connected: the
    /// chat relay and the download daemon are launched when the node is
    /// configured to run them.
    pub fn on_ready(&self, run_chat: bool, run_downpour: bool) -> (r: Vec<Action>)
        ensures
            r@ == {
                let chat = if run_chat {
                    Seq::empty().push(Action::Launch(Daemon::Chatd))
                } else {
                    Seq::empty()
                };
                if run_downpour {
                    chat.push(Action::Launch(Daemon::Downpourd))
                } else {
                    chat
                }
            },
    {
        let mut r: Vec<Action> = Vec::new();
        if run_chat {
            r.push(Action::Launch(Daemon::Chatd));
        }
        if run_downpour {
            r.push(Action::Launch(Daemon::Downpourd));
        }
        proof {
            assert(r@ =~= {
                let chat = if run_chat {
                    Seq::empty().push(Action::Launch(Daemon::Chatd))
                } else {
                    Seq::empty()
                };
                if run_downpour {
                    chat.push(Action::Launch(Daemon::Downpourd))
                } else {
                    chat
                }
            });
        }
        r
    }

    /// Registers a newly connected transfer worker in the free pool; other
    /// services, and a worker already pooled, change nothing.
    pub fn accept_daemon(&mut self, source: ServiceId)
        requires
            old(self).wf(),
        ensures
            final(self).wf(),
            hello_step(*old(self), *final(self), source),
    {
        match source {
            ServiceId::Transfer(daemon_id) => {
                if !contains_u64(&self.transferd_free, daemon_id) && !contains_u64(
                    &self.transferd_busy,
                    daemon_id,
                ) {
                    self.transferd_free.push(daemon_id);
                    proof {
                        assert(distinct_u64s(self.transferd_free@)) by {
                            assert forall|a: int, b: int|
                                0 <= a < b < self.transferd_free@.len() implies self.transferd_free@[a]
                                != self.transferd_free@[b] by {
                                if b < self.transferd_free@.len() - 1 {
                                    assert(old(self).transferd_free@[a] != old(
                                        self,
                                    ).transferd_free@[b]);
                                } else {
                                    assert(old(self).transferd_free@.contains(
                                        self.transferd_free@[a],
                                    )) by {
                                        assert(old(self).transferd_free@[a]
                                            == self.transferd_free@[a]);
                                    }
                                }
                            }
                        }
                    }
                }
            }
            _ => {}
        }
    }

    /// Assigns the task at the queue head to the worker at the free-pool
    /// head. An empty queue reports idleness; a queued task with no free
    /// worker reports unavailability without consuming the queue — the
    /// caller decides whether to add capacity. An assigned worker is taken
    /// from the free pool, so it was not busy, and both the queue and the
    /// pool advance strictly in order.
    pub fn pick_task(&mut self, out: &mut Vec<Action>) -> (r: PickOutcome)
        requires
            old(self).wf(),
        ensures
            final(self).wf(),
            pick_step(*old(self), *final(self), old(out)@, final(out)@),
            (r == PickOutcome::Idle) <==> old(self).ctl_queue@.len() == 0,
            (r == PickOutcome::Unavailable) <==> (old(self).ctl_queue@.len() > 0 && old(
                self,
            ).transferd_free@.len() == 0),
            (r == PickOutcome::Assigned) <==> (old(self).ctl_queue@.len() > 0 && old(
                self,
            ).transferd_free@.len() > 0),
            r == PickOutcome::Assigned ==> !old(self).transferd_busy@.contains(
                old(self).transferd_free@[0],
            ),
            old(self).dispatch_invariant() ==> final(self).dispatch_invariant(),
    {
        if self.ctl_queue.len() == 0 {
            return PickOutcome::Idle;
        }
        if self.transferd_free.len() == 0 {
            return PickOutcome::Unavailable;
        }
        let daemon_id = self.transferd_free[0];
        let task = self.ctl_queue.remove(0);
        proof {
            assert(self.ctl_queue@ =~= old(self).ctl_queue@.drop_first());
            assert(old(self).transferd_free@.contains(daemon_id)) by {
                assert(old(self).transferd_free@[0] == daemon_id);
            }
        }
        let key = match &task {
            CtlMsg::GetContainer(acm) => Some(acm.data.container_id.container_id),
            CtlMsg::SendContainer(acm) => Some(acm.data.container_id.container_id),
            _ => None,
        };
        out.push(Action::Send(send_ctl(ServiceId::stormd(), ServiceId::Transfer(daemon_id), task)));
        if let Some(cid) = key {
            self.container_transfers.insert(cid.bytes, daemon_id);
        }
        self.transferd_free.remove(0);
        self.transferd_busy.push(daemon_id);
        proof {
            assert(self.transferd_free@ =~= old(self).transferd_free@.drop_first());
            assert(distinct_u64s(self.transferd_busy@)) by {
                assert forall|a: int, b: int|
                    0 <= a < b < self.transferd_busy@.len() implies self.transferd_busy@[a]
                    != self.transferd_busy@[b] by {
                    if b < self.transferd_busy@.len() - 1 {
                        assert(old(self).transferd_busy@[a] != old(self).transferd_busy@[b]);
                    } else {
                        assert(old(self).transferd_busy@.contains(self.transferd_busy@[a])) by {
                            assert(old(self).transferd_busy@[a] == self.transferd_busy@[a]);
                        }
                    }
                }
            }
            assert forall|d: u64| self.transferd_free@.contains(d) implies !self.transferd_busy@.contains(
                d,
            ) by {
                let j = choose|j: int|
                    0 <= j < self.transferd_free@.len() && self.transferd_free@[j] == d;
                assert(old(self).transferd_free@[j + 1] == d);
                assert(old(self).transferd_free@.contains(d));
                assert(d != daemon_id) by {
                    if d == daemon_id {
                        assert(old(self).transferd_free@[0] == daemon_id);
                    }
                }
                assert forall|k: int|
                    0 <= k < self.transferd_busy@.len() implies self.transferd_busy@[k] != d by {
                    if k < self.transferd_busy@.len() - 1 {
                        assert(old(self).transferd_busy@[k] == self.transferd_busy@[k]);
                        assert(!old(self).transferd_busy@.contains(d) ==> old(
                            self,
                        ).transferd_busy@[k] != d);
                    }
                }
            }
        }
        PickOutcome::Assigned
    }

    /// Tries to assign the queue head; when no worker is free, asks for a
    /// fresh worker to be launched and leaves the task queued — it will be
    /// picked up once the new worker's registration arrives. A client that
    /// initiated the request is told what happened, with no promise beyond
    /// best effort.
    pub fn pick_or_start(&mut self, client_id: Option<ClientId>, out: &mut Vec<Action>)
        requires
            old(self).wf(),
        ensures
            final(self).wf(),
            pos_step(*old(self), *final(self), old(out)@, final(out)@, client_id),
            old(self).dispatch_invariant() ==> final(self).dispatch_invariant(),
    {
        let r = self.pick_task(out);
        match r {
            PickOutcome::Unavailable => {
                out.push(Action::Launch(Daemon::Transferd));
                if let Some(c) = client_id {
                    out.push(
                        Action::Send(
                            send_rpc(
                                ServiceId::stormd(),
                                c,
                                RpcMsg::Progress(ProgressNote::WorkerStarted),
                            ),
                        ),
                    );
                }
            }
            _ => {
                if let Some(c) = client_id {
                    out.push(
                        Action::Send(
                            send_rpc(
                                ServiceId::stormd(),
                                c,
                                RpcMsg::Progress(ProgressNote::RequestForwarded),
                            ),
                        ),
                    );
                }
            }
        }
    }

    /// Handles one control-bus message: a transfer worker's registration
    /// puts it in the free pool, its completion or failure notice frees it
    /// again — either way the queue is drained right away. Other control
    /// messages are refused; registrations from other services are
    /// ignored.
    pub fn handle_ctl(&mut self, source: ServiceId, message: CtlMsg, out: &mut Vec<Action>) -> (r:
        Result<(), DaemonError>)
        requires
            old(self).wf(),
        ensures
            final(self).wf(),
            old(self).dispatch_invariant() ==> final(self).dispatch_invariant(),
            match message {
                CtlMsg::Hello => r == Ok::<(), DaemonError>(()) && (match source {
                    ServiceId::Transfer(_) => exists|mid: Runtime| #![auto]
                        hello_step(*old(self), mid, source) && pick_step(
                            mid,
                            *final(self),
                            old(out)@,
                            final(out)@,
                        ),
                    _ => *final(self) == *old(self) && final(out)@ == old(out)@,
                }),
                CtlMsg::ProcessingComplete | CtlMsg::ProcessingFailed => r == Ok::<
                    (),
                    DaemonError,
                >(()) && (match source {
                    ServiceId::Transfer(d) => exists|mid: Runtime| #![auto]
                        freed_step(*old(self), mid, d) && pick_step(
                            mid,
                            *final(self),
                            old(out)@,
                            final(out)@,
                        ),
                    _ => *final(self) == *old(self) && final(out)@ == old(out)@,
                }),
                _ => {
                    &&& r == Err::<(), DaemonError>(
                        DaemonError::RequestNotSupported(ServiceBus::Ctl),
                    )
                    &&& *final(self) == *old(self)
                    &&& final(out)@ == old(out)@
                },
            },
    {
        match message {
            CtlMsg::Hello => {
                if let ServiceId::Transfer(_) = source {
                    self.accept_daemon(source);
                    let ghost mid = *self;
                    let _ = self.pick_task(out);
                    proof {
                        assert(hello_step(*old(self), mid, source) && pick_step(
                            mid,
                            *self,
                            old(out)@,
                            out@,
                        ));
                    }
                }
                Ok(())
            }
            CtlMsg::ProcessingComplete | CtlMsg::ProcessingFailed => {
                if let ServiceId::Transfer(daemon_id) = source {
                    match self.container_transfers.key_of(daemon_id) {
                        Some(k) => {
                            self.container_transfers.remove(&k);
                        }
                        None => {}
                    }
                    remove_once_u64(&mut self.transferd_busy, daemon_id);
                    if !contains_u64(&self.transferd_free, daemon_id) {
                        self.transferd_free.push(daemon_id);
                        proof {
                            assert(distinct_u64s(self.transferd_free@)) by {
                                assert forall|a: int, b: int|
                                    0 <= a < b < self.transferd_free@.len() implies self.transferd_free@[a]
                                    != self.transferd_free@[b] by {
                                    if b < self.transferd_free@.len() - 1 {
                                        assert(old(self).transferd_free@[a] != old(
                                            self,
                                        ).transferd_free@[b]);
                                    } else {
                                        assert(old(self).transferd_free@.contains(
                                            self.transferd_free@[a],
                                        )) by {
                                            assert(old(self).transferd_free@[a]
                                                == self.transferd_free@[a]);
                                        }
                                    }
                                }
                            }
                        }
                    }
                    proof {
                        assert(freed_step(*old(self), *self, daemon_id));
                        assert forall|d2: u64| self.transferd_free@.contains(d2)
                            implies !self.transferd_busy@.contains(d2) by {
                            if d2 != daemon_id {
                                assert(old(self).transferd_free@.contains(d2) ==> !old(
                                    self,
                                ).transferd_busy@.contains(d2));
                                if !old(self).transferd_free@.contains(d2) {
                                    let j = choose|j: int|
                                        0 <= j < self.transferd_free@.len()
                                            && self.transferd_free@[j] == d2;
                                    assert(old(self).transferd_free@.len() <= j);
                                }
                            }
                        }
                    }
                    let ghost mid = *self;
                    let _ = self.pick_task(out);
                    proof {
                        assert(freed_step(*old(self), mid, daemon_id) && pick_step(
                            mid,
                            *self,
                            old(out)@,
                            out@,
                        ));
                    }
                }
                Ok(())
            }
            wrong_msg => {
                let _ = wrong_msg;
                Err(DaemonError::wrong_esb_msg(ServiceBus::Ctl))
            }
        }
    }

    /// Handles one client request: a request to send or fetch a container
    /// joins the task queue on the client's behalf and an assignment is
    /// tried at once. A send starts with the container's announcement to
    /// the peer. Every other client request is refused on this bus.
    pub fn handle_rpc(
        &mut self,
        client_id: ClientId,
        message: RpcMsg,
        out: &mut Vec<Action>,
    ) -> (r: Result<(), DaemonError>)
        requires
            old(self).wf(),
        ensures
            final(self).wf(),
            old(self).dispatch_invariant() ==> final(self).dispatch_invariant(),
            match message {
                RpcMsg::SendContainer(am) => r == Ok::<(), DaemonError>(()) && (exists|
                    mid: Runtime,
                | #![auto]
                    enqueue_step(
                        *old(self),
                        mid,
                        CtlMsg::AnnounceContainer(
                            AddressedClientMsg {
                                remote_id: am.remote_id,
                                client_id: Some(client_id),
                                data: am.data,
                            },
                        ),
                    ) && pos_step(mid, *final(self), old(out)@, final(out)@, Some(client_id))),
                RpcMsg::GetContainer(am) => r == Ok::<(), DaemonError>(()) && (exists|
                    mid: Runtime,
                | #![auto]
                    enqueue_step(
                        *old(self),
                        mid,
                        CtlMsg::GetContainer(
                            AddressedClientMsg {
                                remote_id: am.remote_id,
                                client_id: Some(client_id),
                                data: am.data,
                            },
                        ),
                    ) && pos_step(mid, *final(self), old(out)@, final(out)@, Some(client_id))),
                _ => {
                    &&& r == Err::<(), DaemonError>(
                        DaemonError::RequestNotSupported(ServiceBus::Rpc),
                    )
                    &&& *final(self) == *old(self)
                    &&& final(out)@ == old(out)@
                },
            },
    {
        match message {
            RpcMsg::SendContainer(am) => {
                self.ctl_queue.push(
                    CtlMsg::AnnounceContainer(
                        AddressedClientMsg {
                            remote_id: am.remote_id,
                            client_id: Some(client_id),
                            data: am.data,
                        },
                    ),
                );
                let ghost mid = *self;
                self.pick_or_start(Some(client_id), out);
                proof {
                    assert(enqueue_step(
                        *old(self),
                        mid,
                        CtlMsg::AnnounceContainer(
                            AddressedClientMsg {
                                remote_id: am.remote_id,
                                client_id: Some(client_id),
                                data: am.data,
                            },
                        ),
                    ));
                }
                Ok(())
            }
            RpcMsg::GetContainer(am) => {
                self.ctl_queue.push(
                    CtlMsg::GetContainer(
                        AddressedClientMsg {
                            remote_id: am.remote_id,
                            client_id: Some(client_id),
                            data: am.data,
                        },
                    ),
                );
                let ghost mid = *self;
                self.pick_or_start(Some(client_id), out);
                proof {
                    assert(enqueue_step(
                        *old(self),
                        mid,
                        CtlMsg::GetContainer(
                            AddressedClientMsg {
                                remote_id: am.remote_id,
                                client_id: Some(client_id),
                                data: am.data,
                            },
                        ),
                    ));
                }
                Ok(())
            }
            wrong_msg => {
                let _ = wrong_msg;
                Err(DaemonError::wrong_esb_msg(ServiceBus::Rpc))
            }
        }
    }

    /// Handles one extension message. A registration is accepted only from
    /// the extension it names and records the application for
    /// announcement. Container commands join the task queue with no
    /// initiating client. Everything else is forwarded to the remote peer
    /// it names, under the sending extension's application.
    pub fn handle_app(&mut self, app: AppId, message: ExtMsg, out: &mut Vec<Action>) -> (r: Result<
        (),
        DaemonError,
    >)
        requires
            old(self).wf(),
        ensures
            final(self).wf(),
            old(self).dispatch_invariant() ==> final(self).dispatch_invariant(),
            match message {
                ExtMsg::RegisterApp(app_id) => if app == app_id {
                    &&& r == Ok::<(), DaemonError>(())
                    &&& final(self).registered_apps@ == (if old(self).registered_apps@.contains(
                        app_id,
                    ) {
                        old(self).registered_apps@
                    } else {
                        old(self).registered_apps@.push(app_id)
                    })
                    &&& final(self).transferd_free@ == old(self).transferd_free@
                    &&& final(self).transferd_busy@ == old(self).transferd_busy@
                    &&& final(self).container_transfers@ == old(self).container_transfers@
                    &&& final(self).ctl_queue@ == old(self).ctl_queue@
                    &&& final(out)@ == old(out)@
                } else {
                    &&& r == Err::<(), DaemonError>(
                        DaemonError::SourceNotSupported(
                            ServiceBus::Storm,
                            ServiceId::StormApp(app_id),
                        ),
                    )
                    &&& *final(self) == *old(self)
                    &&& final(out)@ == old(out)@
                },
                ExtMsg::RetrieveContainer(am) => r == Ok::<(), DaemonError>(()) && (exists|
                    mid: Runtime,
                | #![auto]
                    enqueue_step(
                        *old(self),
                        mid,
                        CtlMsg::GetContainer(
                            AddressedClientMsg {
                                remote_id: am.remote_id,
                                client_id: None,
                                data: AppContainer { storm_app: app, container_id: am.data },
                            },
                        ),
                    ) && pos_step(mid, *final(self), old(out)@, final(out)@, None)),
                ExtMsg::SendContainer(am) => r == Ok::<(), DaemonError>(()) && (exists|
                    mid: Runtime,
                | #![auto]
                    enqueue_step(
                        *old(self),
                        mid,
                        CtlMsg::SendContainer(
                            AddressedClientMsg {
                                remote_id: am.remote_id,
                                client_id: None,
                                data: AppContainer { storm_app: app, container_id: am.data },
                            },
                        ),
                    ) && pos_step(mid, *final(self), old(out)@, final(out)@, None)),
                forward => {
                    &&& r == Ok::<(), DaemonError>(())
                    &&& *final(self) == *old(self)
                    &&& final(out)@ == old(out)@.push(
                        Action::Send(
                            send_p2p_spec(
                                ServiceId::MsgApp(MSG_APP_STORM),
                                remote_id_spec(forward),
                                p2p_message_spec(forward, app),
                            ),
                        ),
                    )
                },
            },
    {
        match message {
            ExtMsg::RegisterApp(app_id) => {
                if app == app_id {
                    if !contains_u16(&self.registered_apps, app_id) {
                        self.registered_apps.push(app_id);
                        proof {
                            assert(distinct_u16s(self.registered_apps@)) by {
                                assert forall|a: int, b: int|
                                    0 <= a < b < self.registered_apps@.len() implies self.registered_apps@[a]
                                    != self.registered_apps@[b] by {
                                    if b < self.registered_apps@.len() - 1 {
                                        assert(old(self).registered_apps@[a] != old(
                                            self,
                                        ).registered_apps@[b]);
                                    } else {
                                        assert(old(self).registered_apps@.contains(
                                            self.registered_apps@[a],
                                        )) by {
                                            assert(old(self).registered_apps@[a]
                                                == self.registered_apps@[a]);
                                        }
                                    }
                                }
                            }
                        }
                    }
                    Ok(())
                } else {
                    Err(
                        DaemonError::wrong_esb_msg_source(
                            ServiceBus::Storm,
                            ServiceId::StormApp(app_id),
                        ),
                    )
                }
            }
            ExtMsg::RetrieveContainer(am) => {
                let task = CtlMsg::GetContainer(
                    AddressedClientMsg {
                        remote_id: am.remote_id,
                        client_id: None,
                        data: AppContainer { storm_app: app, container_id: am.data },
                    },
                );
                self.ctl_queue.push(task);
                let ghost mid = *self;
                self.pick_or_start(None, out);
                proof {
                    assert(enqueue_step(
                        *old(self),
                        mid,
                        CtlMsg::GetContainer(
                            AddressedClientMsg {
                                remote_id: am.remote_id,
                                client_id: None,
                                data: AppContainer { storm_app: app, container_id: am.data },
                            },
                        ),
                    ));
                }
                Ok(())
            }
            ExtMsg::SendContainer(am) => {
                let task = CtlMsg::SendContainer(
                    AddressedClientMsg {
                        remote_id: am.remote_id,
                        client_id: None,
                        data: AppContainer { storm_app: app, container_id: am.data },
                    },
                );
                self.ctl_queue.push(task);
                let ghost mid = *self;
                self.pick_or_start(None, out);
                proof {
                    assert(enqueue_step(
                        *old(self),
                        mid,
                        CtlMsg::SendContainer(
                            AddressedClientMsg {
                                remote_id: am.remote_id,
                                client_id: None,
                                data: AppContainer { storm_app: app, container_id: am.data },
                            },
                        ),
                    ));
                }
                Ok(())
            }
            forward => {
                let remote_id = forward.remote_id();
                out.push(
                    Action::Send(
                        send_p2p(ServiceId::stormd(), remote_id, forward.p2p_message(app)),
                    ),
                );
                Ok(())
            }
        }
    }

    /// Handles one peer message. A delivered container or chunk, and a
    /// request for chunks, concerning a container with an active transfer
    /// is routed straight to the worker serving it, never re-queued. A
    /// chunk request for an untracked container joins the task queue like
    /// any other work — best effort, with no entitlement check — while an
    /// unsolicited container or chunk is dropped. Everything else either
    /// folds into an extension message routed to the owning application,
    /// or is answered by the node itself: a peer asking for the active
    /// applications gets the registered list.
    pub fn handle_p2p(
        &mut self,
        remote_id: NodeId,
        message: p2p::Messages,
        out: &mut Vec<Action>,
    ) -> (r: Result<(), DaemonError>)
        requires
            old(self).wf(),
            message.payload_wf(),
        ensures
            final(self).wf(),
            old(self).dispatch_invariant() ==> final(self).dispatch_invariant(),
            match message {
                p2p::Messages::PushContainer(am) => {
                    let key = crate::digest::container_id_of(am.data@);
                    &&& r == Ok::<(), DaemonError>(())
                    &&& *final(self) == *old(self)
                    &&& if old(self).container_transfers@.contains_key(key) {
                        final(out)@ == old(out)@.push(
                            Action::Send(
                                send_ctl_spec(
                                    ServiceId::MsgApp(MSG_APP_STORM),
                                    ServiceId::Transfer(old(self).container_transfers@[key]),
                                    CtlMsg::ProcessContainer(am.data),
                                ),
                            ),
                        )
                    } else {
                        final(out)@ == old(out)@
                    }
                },
                p2p::Messages::PushChunk(cp) => {
                    let key = cp.container_id@;
                    &&& r == Ok::<(), DaemonError>(())
                    &&& *final(self) == *old(self)
                    &&& if old(self).container_transfers@.contains_key(key) {
                        final(out)@ == old(out)@.push(
                            Action::Send(
                                send_ctl_spec(
                                    ServiceId::MsgApp(MSG_APP_STORM),
                                    ServiceId::Transfer(old(self).container_transfers@[key]),
                                    CtlMsg::ProcessChunk(cp.chunk),
                                ),
                            ),
                        )
                    } else {
                        final(out)@ == old(out)@
                    }
                },
                p2p::Messages::PullChunk(cp) => {
                    let key = cp.container_id@;
                    let instr = CtlMsg::SendChunks(
                        AddressedMsg {
                            remote_id,
                            data: ChunkSend {
                                storm_app: cp.app,
                                container_id: cp.container_id,
                                chunk_ids: cp.chunk_ids,
                            },
                        },
                    );
                    &&& r == Ok::<(), DaemonError>(())
                    &&& if old(self).container_transfers@.contains_key(key) {
                        &&& *final(self) == *old(self)
                        &&& final(out)@ == old(out)@.push(
                            Action::Send(
                                send_ctl_spec(
                                    ServiceId::MsgApp(MSG_APP_STORM),
                                    ServiceId::Transfer(old(self).container_transfers@[key]),
                                    instr,
                                ),
                            ),
                        )
                    } else {
                        exists|mid: Runtime| #![auto]
                            enqueue_step(*old(self), mid, instr) && pos_step(
                                mid,
                                *final(self),
                                old(out)@,
                                final(out)@,
                                None,
                            )
                    }
                },
                other => {
                    &&& r == Ok::<(), DaemonError>(())
                    &&& *final(self) == *old(self)
                    &&& match storm_ext_msg_spec(other, remote_id) {
                        Ok((app2, storm_msg)) => final(out)@ == old(out)@.push(
                            Action::Send(
                                Envelope {
                                    bus: ServiceBus::Storm,
                                    source: ServiceId::MsgApp(MSG_APP_STORM),
                                    dest: ServiceId::StormApp(app2),
                                    msg: BusMsg::Storm(storm_msg),
                                },
                            ),
                        ),
                        Err(p2p::Messages::ListApps) => {
                            &&& final(out)@.len() == old(out)@.len() + 1
                            &&& match final(out)@.last() {
                                Action::Send(e) => {
                                    &&& e.bus == ServiceBus::Msg
                                    &&& e.source == ServiceId::MsgApp(MSG_APP_STORM)
                                    &&& e.dest == ServiceId::Peer(remote_id)
                                    &&& match e.msg {
                                        BusMsg::Bifrost(p2p::Messages::ActiveApps(v)) => v@ == old(
                                            self,
                                        ).registered_apps@,
                                        _ => false,
                                    }
                                },
                                _ => false,
                            }
                        },
                        Err(_) => final(out)@ == old(out)@,
                    }
                },
            },
    {
        match message {
            p2p::Messages::PushContainer(am) => {
                let cid = am.data.container_id();
                let instr = CtlMsg::ProcessContainer(am.data);
                match self.container_transfers.get(&cid.bytes) {
                    Some(d) => {
                        let daemon_id = *d;
                        out.push(
                            Action::Send(
                                send_ctl(
                                    ServiceId::stormd(),
                                    ServiceId::Transfer(daemon_id),
                                    instr,
                                ),
                            ),
                        );
                    }
                    None => {}
                }
                Ok(())
            }
            p2p::Messages::PushChunk(cp) => {
                let cid = cp.container_id;
                let instr = CtlMsg::ProcessChunk(cp.chunk);
                match self.container_transfers.get(&cid.bytes) {
                    Some(d) => {
                        let daemon_id = *d;
                        out.push(
                            Action::Send(
                                send_ctl(
                                    ServiceId::stormd(),
                                    ServiceId::Transfer(daemon_id),
                                    instr,
                                ),
                            ),
                        );
                    }
                    None => {}
                }
                Ok(())
            }
            p2p::Messages::PullChunk(cp) => {
                let cid = cp.container_id;
                let instr = CtlMsg::SendChunks(
                    AddressedMsg {
                        remote_id,
                        data: ChunkSend {
                            storm_app: cp.app,
                            container_id: cp.container_id,
                            chunk_ids: cp.chunk_ids,
                        },
                    },
                );
                let routed = match self.container_transfers.get(&cid.bytes) {
                    Some(d) => Some(*d),
                    None => None,
                };
                match routed {
                    Some(daemon_id) => {
                        out.push(
                            Action::Send(
                                send_ctl(
                                    ServiceId::stormd(),
                                    ServiceId::Transfer(daemon_id),
                                    instr,
                                ),
                            ),
                        );
                    }
                    None => {
                        let ghost ginstr = instr;
                        self.ctl_queue.push(instr);
                        let ghost mid = *self;
                        self.pick_or_start(None, out);
                        proof {
                            assert(enqueue_step(*old(self), mid, ginstr));
                        }
                    }
                }
                Ok(())
            }
            other => {
                match other.storm_ext_msg(remote_id) {
                    Ok((app, storm_msg)) => {
                        out.push(
                            Action::Send(send_ext(ServiceId::stormd(), Some(app), storm_msg)),
                        );
                        Ok(())
                    }
                    Err(p2p::Messages::ListApps) => {
                        let apps = dup_apps(&self.registered_apps);
                        out.push(
                            Action::Send(
                                send_p2p(
                                    ServiceId::stormd(),
                                    remote_id,
                                    p2p::Messages::ActiveApps(apps),
                                ),
                            ),
                        );
                        Ok(())
                    }
                    Err(wrong_msg) => {
                        let _ = wrong_msg;
                        Ok(())
                    }
                }
            }
        }
    }

    /// Routes one delivered message to the handler of its bus, checking
    /// that it arrived on the bus that carries it and from a source
    /// allowed to issue it; anything else is a protocol violation that
    /// aborts the instruction and changes nothing.
    pub fn handle(
        &mut self,
        bus_id: ServiceBus,
        source: ServiceId,
        request: BusMsg,
        out: &mut Vec<Action>,
    ) -> (r: Result<(), DaemonError>)
        requires
            old(self).wf(),
            request.payload_wf(),
        ensures
            final(self).wf(),
            old(self).dispatch_invariant() ==> final(self).dispatch_invariant(),
            !(match (bus_id, request, source) {
                (ServiceBus::Msg, BusMsg::Bifrost(_), ServiceId::Peer(_)) => true,
                (ServiceBus::Ctl, BusMsg::Ctl(_), _) => true,
                (ServiceBus::Storm, BusMsg::Storm(_), ServiceId::StormApp(_)) => true,
                (ServiceBus::Rpc, BusMsg::Rpc(_), ServiceId::Client(_)) => true,
                _ => false,
            }) ==> {
                &&& r == Err::<(), DaemonError>(DaemonError::RequestNotSupported(bus_id))
                &&& *final(self) == *old(self)
                &&& final(out)@ == old(out)@
            },
            match (bus_id, request, source) {
                (ServiceBus::Msg, BusMsg::Bifrost(_), ServiceId::Peer(_)) => r is Ok,
                (ServiceBus::Ctl, BusMsg::Ctl(m), _) => r is Ok <==> (m matches CtlMsg::Hello
                    || m matches CtlMsg::ProcessingComplete
                    || m matches CtlMsg::ProcessingFailed),
                (ServiceBus::Storm, BusMsg::Storm(m), ServiceId::StormApp(app_id)) => r is Ok
                    <==> !(m matches ExtMsg::RegisterApp(named) && named != app_id),
                (ServiceBus::Rpc, BusMsg::Rpc(m), ServiceId::Client(_)) => r is Ok <==> (
                m matches RpcMsg::SendContainer(_) || m matches RpcMsg::GetContainer(_)),
                _ => true,
            },
    {
        match (bus_id, request, source) {
            (ServiceBus::Msg, BusMsg::Bifrost(msg), ServiceId::Peer(remote_id)) => self.handle_p2p(
                remote_id,
                msg,
                out,
            ),
            (ServiceBus::Ctl, BusMsg::Ctl(msg), src) => self.handle_ctl(src, msg, out),
            (ServiceBus::Storm, BusMsg::Storm(msg), ServiceId::StormApp(app_id)) => self.handle_app(
                app_id,
                msg,
                out,
            ),
            (ServiceBus::Rpc, BusMsg::Rpc(msg), ServiceId::Client(client_id)) => self.handle_rpc(
                client_id,
                msg,
                out,
            ),
            (bus, msg, _) => {
                let _ = msg;
                Err(DaemonError::wrong_esb_msg(bus))
            }
        }
    }
}

/// One task joined the queue tail; nothing else moved.
pub open spec fn enqueue_step(pre: Runtime, post: Runtime, task: CtlMsg) -> bool {
    &&& post.ctl_queue@ == pre.ctl_queue@.push(task)
    &&& post.registered_apps@ == pre.registered_apps@
    &&& post.transferd_free@ == pre.transferd_free@
    &&& post.transferd_busy@ == pre.transferd_busy@
    &&& post.container_transfers@ == pre.container_transfers@
}

/// What one `pick_or_start` call does: a `pick_task`, plus — when no
/// worker was free — a launch of a fresh worker, and a progress note to
/// the client that initiated the request, if one did.
pub open spec fn pos_step(
    pre: Runtime,
    post: Runtime,
    out_pre: Seq<Action>,
    out_post: Seq<Action>,
    client_id: Option<ClientId>,
) -> bool {
    let src = ServiceId::MsgApp(MSG_APP_STORM);
    if pre.ctl_queue@.len() > 0 && pre.transferd_free@.len() == 0 {
        post == pre && out_post == (match client_id {
            Some(c) => out_pre.push(Action::Launch(Daemon::Transferd)).push(
                Action::Send(send_rpc_spec(src, c, RpcMsg::Progress(ProgressNote::WorkerStarted))),
            ),
            None => out_pre.push(Action::Launch(Daemon::Transferd)),
        })
    } else {
        {
            let mid_out = if pre.ctl_queue@.len() == 0 {
                out_pre
            } else {
                out_pre.push(Action::Send(assigned_envelope(pre)))
            };
            &&& (if pre.ctl_queue@.len() == 0 {
                post == pre
            } else {
                assigned_step(pre, post)
            })
            &&& out_post == (match client_id {
                Some(c) => mid_out.push(
                    Action::Send(
                        send_rpc_spec(src, c, RpcMsg::Progress(ProgressNote::RequestForwarded)),
                    ),
                ),
                None => mid_out,
            })
        }
    }
}

/// What a completion or failure notice from a worker does: the worker's
/// active-transfer entry, if any, is dropped, the worker leaves the busy
/// set and rejoins the free pool.
pub open spec fn freed_step(pre: Runtime, post: Runtime, d: DaemonId) -> bool {
    &&& post.registered_apps@ == pre.registered_apps@
    &&& post.ctl_queue@ == pre.ctl_queue@
    &&& seq_removed_once(pre.transferd_busy@, post.transferd_busy@, d)
    &&& (if pre.transferd_free@.contains(d) {
        post.transferd_free@ == pre.transferd_free@
    } else {
        post.transferd_free@ == pre.transferd_free@.push(d)
    })
    &&& ((forall|k: Seq<u8>|
        pre.container_transfers@.contains_key(k) ==> pre.container_transfers@[k] != d)
        ==> post.container_transfers@ == pre.container_transfers@)
    &&& ((exists|k: Seq<u8>| #![auto]
        pre.container_transfers@.contains_key(k) && pre.container_transfers@[k] == d) ==> (exists|
        k: Seq<u8>,
    | #![auto]
        pre.container_transfers@.contains_key(k) && pre.container_transfers@[k] == d
            && post.container_transfers@ == pre.container_transfers@.remove(k)))
}

/// What a worker's registration does: a new transfer worker joins the free
/// pool; an already known worker, and any other service, changes nothing.
pub open spec fn hello_step(pre: Runtime, post: Runtime, source: ServiceId) -> bool {
    match source {
        ServiceId::Transfer(d) => {
            if pre.transferd_free@.contains(d) || pre.transferd_busy@.contains(d) {
                post == pre
            } else {
                &&& post.transferd_free@ == pre.transferd_free@.push(d)
                &&& post.transferd_busy@ == pre.transferd_busy@
                &&& post.registered_apps@ == pre.registered_apps@
                &&& post.container_transfers@ == pre.container_transfers@
                &&& post.ctl_queue@ == pre.ctl_queue@
            }
        },
        _ => post == pre,
    }
}

} // verus!
