//! Per-tenant worker control objects, the listener-loop state machine, and
//! the port allocator.
//!
//! A `ScriptWorkerThread` is the control object of one tenant. It models the
//! control plane of the tenant's resources: the stack of running production
//! script-runtime instances, the optional development-mode (auto-reload)
//! runtime, and the state its listener loop is commanded into. The operations
//! that touch the operating system — spawning a runtime on its own thread,
//! sending on a channel, binding a listener — are returned to the caller as
//! `WorkerAction` values queued on the worker; the surrounding application
//! drains the queue and performs them in order.

use vstd::prelude::*;

verus! {

/// A TCP port assigned to one tenant's listener loop.
#[derive(Debug, Default, Copy, Clone, PartialEq, Eq, Hash, Structural)]
pub struct WorkerPort(pub u16);

impl WorkerPort {
    /// The next candidate port, or `None` once the 16-bit port space is
    /// exhausted.
    pub fn next(&self) -> (r: Option<WorkerPort>)
        ensures
            self.0 < u16::MAX ==> r == Some(WorkerPort((self.0 + 1) as u16)),
            self.0 == u16::MAX ==> r is None,
    {
        match self.0.checked_add(1) {
            Some(p) => Some(WorkerPort(p)),
            None => None,
        }
    }
}

/// The key of one tenant: an opaque product code.
#[derive(Debug, Default, Clone, PartialEq, Eq, Hash)]
pub struct ScriptWorkerId(pub String);

impl View for ScriptWorkerId {
    type V = Seq<char>;

    open spec fn view(&self) -> Seq<char> {
        self.0@
    }
}

/// Basic description of one tenant's project.
#[derive(Debug, Clone)]
pub struct Project {
    /// Display name; doubles as the tenant key.
    pub name: String,
    /// Path of the script entry point handed to the script runtime.
    pub path: String,
}

/// Control message consumed by a tenant's listener loop.
#[derive(Debug, Clone, Copy, PartialEq, Eq, Structural)]
pub enum ServerStatus {
    /// Resume handing accepted connections to the script runtimes.
    Start,
    /// Keep the listener bound but reject new connections.
    Wait,
    /// Terminate the loop and release the listener.
    Exit,
}

/// The state of a tenant's listener loop.
#[derive(Debug, Clone, Copy, PartialEq, Eq, Structural)]
pub enum ListenerState {
    /// Accepted connections are handed off to the script runtimes.
    Accepting,
    /// The listener stays bound, but each accepted connection is sent a short
    /// rejection payload and dropped.
    Rejecting,
    /// The listener has been released and the loop has exited.
    Terminated,
}

/// What the listener loop does with one accepted connection.
#[derive(Debug, Clone, Copy, PartialEq, Eq, Structural)]
pub enum ConnDisposition {
    /// Hand the raw stream to whichever script runtime consumes the stream
    /// source.
    Handoff,
    /// Write the rejection payload and drop the connection; it must not be
    /// queued for a later `Accepting` transition.
    Reject,
}

/// The listener loop's reaction to one control message.
///
/// `Start` resumes forwarding, `Wait` switches to rejecting, and `Exit` is
/// terminal.
pub fn listener_step(state: ListenerState, msg: ServerStatus) -> (next: ListenerState)
    requires
        !(state is Terminated),
    ensures
        msg is Start ==> next is Accepting,
        msg is Wait ==> next is Rejecting,
        msg is Exit ==> next is Terminated,
{
    match msg {
        ServerStatus::Start => ListenerState::Accepting,
        ServerStatus::Wait => ListenerState::Rejecting,
        ServerStatus::Exit => ListenerState::Terminated,
    }
}

/// How the listener loop disposes of a connection accepted in `state`:
/// handed off while accepting, rejected while rejecting.
pub fn connection_disposition(state: ListenerState) -> (d: ConnDisposition)
    requires
        !(state is Terminated),
    ensures
        d is Handoff <==> state is Accepting,
{
    match state {
        ListenerState::Accepting => ConnDisposition::Handoff,
        _ => ConnDisposition::Reject,
    }
}

/// The fixed payload written to a connection accepted while the listener is
/// rejecting: the UTF-8 bytes of a short "service stopped" notice.
pub fn rejection_payload() -> (v: Vec<u8>)
    ensures
        v@ == seq![
            0xE5u8, 0x81u8, 0x9Cu8, 0xE6u8, 0xADu8, 0xA2u8, 0xE6u8, 0x9Cu8, 0x8Du8, 0xE5u8,
            0x8Au8, 0xA1u8,
        ],
{
    let v: Vec<u8> = vec![0xE5, 0x81, 0x9C, 0xE6, 0xAD, 0xA2, 0xE6, 0x9C, 0x8D, 0xE5, 0x8A, 0xA1];
    proof {
        assert(v@ =~= seq![
            0xE5u8, 0x81u8, 0x9Cu8, 0xE6u8, 0xADu8, 0xA2u8, 0xE6u8, 0x9Cu8, 0x8Du8, 0xE5u8,
            0x8Au8, 0xA1u8,
        ]);
    }
    v
}

/// Handle through which the worker asks one running production instance to
/// stop. `instance_id` is the instance's position on the worker's stack; the
/// application registers each spawned instance's cancellation channel under
/// that slot, so the handle names the channel to signal.
#[derive(Debug, Clone, Copy, PartialEq, Eq, Structural)]
pub struct Terminate {
    pub instance_id: usize,
}

/// Marker of the development-mode cancellation channel. At most one exists
/// per worker; the application holds the sender itself.
#[derive(Debug, Clone, Copy, PartialEq, Eq, Structural)]
pub struct WatchChannel;

/// One deferred effect of a worker lifecycle operation, performed by the
/// surrounding application in queue order.
#[derive(Debug, Clone, Copy, PartialEq, Eq, Structural)]
pub enum WorkerAction {
    /// Spawn a production script-runtime instance on its own thread, wired to
    /// the shared connection-stream consumer and to a fresh cancellation
    /// channel registered under slot `instance_id`; open a debugger endpoint
    /// iff `debug`.
    SpawnRuntime { instance_id: usize, debug: bool },
    /// Spawn the development-mode (auto-reload) script-runtime instance on
    /// its own thread, wired to the shared connection-stream consumer and to
    /// a fresh watch cancellation channel.
    SpawnWatchRuntime,
    /// Dispatch the cancellation signal of the production instance in slot
    /// `instance_id`, asynchronously: the caller must not be blocked on the
    /// runtime's shutdown, and a second signal to an already-stopped instance
    /// must be harmless.
    SignalInstanceStop { instance_id: usize },
    /// Dispatch the cancellation signal of the development-mode runtime,
    /// asynchronously.
    SignalWatchStop,
    /// Send `status` to the tenant's listener loop. `Exit` must be sent
    /// blocking-safe, since it happens during teardown.
    NotifyListener { status: ServerStatus },
}

/// The stop signals owed for an instance stack: one per held handle, newest
/// first — the exact reverse of start order.
pub open spec fn instance_stop_signals(handlers: Seq<Terminate>) -> Seq<WorkerAction>
    decreases handlers.len(),
{
    if handlers.len() == 0 {
        Seq::<WorkerAction>::empty()
    } else {
        seq![(WorkerAction::SignalInstanceStop { instance_id: handlers.last().instance_id })]
            + instance_stop_signals(handlers.drop_last())
    }
}

/// Everything `stop_all_runtime` queues for a worker that holds `handlers`
/// and, when `watch_active`, a development channel: the watch cancellation
/// first, then one instance stop per held handle in reverse start order, and
/// one `Wait` to the listener once the last consumer is gone — nothing at all
/// when nothing was running.
pub open spec fn stop_all_actions(handlers: Seq<Terminate>, watch_active: bool) -> Seq<
    WorkerAction,
> {
    (if watch_active {
        seq![WorkerAction::SignalWatchStop]
    } else {
        Seq::<WorkerAction>::empty()
    }) + instance_stop_signals(handlers) + (if watch_active || handlers.len() > 0 {
        seq![(WorkerAction::NotifyListener { status: ServerStatus::Wait })]
    } else {
        Seq::<WorkerAction>::empty()
    })
}

/// The per-tenant control object.
pub struct ScriptWorkerThread {
    /// Unique tenant key (equals the project name).
    pub id: ScriptWorkerId,
    /// Project description.
    pub project: Project,
    /// Port of this tenant's listener loop; assigned at construction,
    /// immutable thereafter.
    pub port: WorkerPort,
    /// Whether the next production runtime start opens a debugger endpoint.
    pub open_debug_server: bool,
    /// One handle per running production instance; stack order, the last
    /// started is the first stopped.
    pub worker_handlers: Vec<Terminate>,
    /// The development-mode cancellation channel, present iff a
    /// development-mode runtime is active.
    pub watch_tx: Option<WatchChannel>,
    /// The state the listener loop is commanded into once it has consumed the
    /// queued `NotifyListener` actions.
    pub listener: ListenerState,
    /// Deferred effects, drained by the application via `take_actions`.
    pub pending: Vec<WorkerAction>,
}

impl ScriptWorkerThread {
    /// Well-formedness: the listener accepts exactly while something consumes
    /// connections (the core synchronization invariant of the gateway), and
    /// each instance handle names its own stack slot.
    pub open spec fn wf(self) -> bool {
        &&& (self.listener is Terminated || ((self.listener is Accepting) <==> (
            self.worker_handlers@.len() > 0 || self.watch_tx is Some
        )))
        &&& (forall|i: int|
            0 <= i < self.worker_handlers@.len() ==> (#[trigger] self.worker_handlers@[i]).instance_id == i)
    }

    /// A live worker: well-formed and its listener loop not yet terminated.
    pub open spec fn live(self) -> bool {
        self.wf() && !(self.listener is Terminated)
    }

    /// Create the control object of a new tenant on an assigned port.
    ///
    /// The caller binds the tenant's listener on `port` and runs the listener
    /// loop; the loop starts in `Rejecting`, since no runtime is ready to
    /// receive connections yet.
    pub fn new(project: Project, port: WorkerPort) -> (w: ScriptWorkerThread)
        ensures
            w.id.0@ == project.name@,
            w.project.name@ == project.name@,
            w.project.path@ == project.path@,
            w.port == port,
            !w.open_debug_server,
            w.worker_handlers@.len() == 0,
            w.watch_tx is None,
            w.listener is Rejecting,
            w.pending@.len() == 0,
            w.live(),
    {
        let id = ScriptWorkerId(project.name.clone());
        ScriptWorkerThread {
            id,
            project,
            port,
            open_debug_server: false,
            worker_handlers: Vec::new(),
            watch_tx: None,
            listener: ListenerState::Rejecting,
            pending: Vec::new(),
        }
    }

    /// Drain the queued actions; the application performs them in order.
    pub fn take_actions(&mut self) -> (acts: Vec<WorkerAction>)
        ensures
            acts@ == old(self).pending@,
            final(self).pending@.len() == 0,
            final(self).id == old(self).id,
            final(self).project == old(self).project,
            final(self).port == old(self).port,
            final(self).open_debug_server == old(self).open_debug_server,
            final(self).worker_handlers == old(self).worker_handlers,
            final(self).watch_tx == old(self).watch_tx,
            final(self).listener == old(self).listener,
            old(self).wf() ==> final(self).wf(),
            old(self).live() ==> final(self).live(),
    {
        let mut acts: Vec<WorkerAction> = Vec::new();
        core::mem::swap(&mut acts, &mut self.pending);
        acts
    }

    /// Start the development-mode (auto-reload) runtime.
    ///
    /// If a development channel already exists this is a no-op, so a second
    /// start without an intervening stop leaves exactly one active channel.
    /// Otherwise a fresh cancellation channel is registered, a watch runtime
    /// spawn is queued, and the listener loop is told to accept.
    pub fn start_watch_runtime(&mut self)
        requires
            old(self).live(),
        ensures
            final(self).live(),
            final(self).watch_tx is Some,
            old(self).watch_tx is Some ==> *final(self) == *old(self),
            old(self).watch_tx is None ==> {
                &&& final(self).listener is Accepting
                &&& final(self).pending@ == old(self).pending@.push(
                    WorkerAction::SpawnWatchRuntime,
                ).push((WorkerAction::NotifyListener { status: ServerStatus::Start }))
            },
            final(self).id == old(self).id,
            final(self).project == old(self).project,
            final(self).port == old(self).port,
            final(self).open_debug_server == old(self).open_debug_server,
            final(self).worker_handlers == old(self).worker_handlers,
    {
        if self.watch_tx.is_none() {
            self.watch_tx = Some(WatchChannel);
            self.listener = ListenerState::Accepting;
            self.pending.push(WorkerAction::SpawnWatchRuntime);
            self.pending.push(WorkerAction::NotifyListener { status: ServerStatus::Start });
        }
    }

    /// Stop the development-mode runtime, if one is active.
    ///
    /// The cancellation signal is dispatched asynchronously; the stored
    /// channel is cleared. The listener loop is told to reject only when no
    /// production instance is running either, so that it keeps accepting
    /// exactly while something still consumes connections.
    pub fn stop_watch_runtime(&mut self)
        requires
            old(self).live(),
        ensures
            final(self).live(),
            final(self).watch_tx is None,
            old(self).watch_tx is None ==> *final(self) == *old(self),
            old(self).watch_tx is Some && old(self).worker_handlers@.len() == 0 ==> {
                &&& final(self).listener is Rejecting
                &&& final(self).pending@ == old(self).pending@.push(
                    WorkerAction::SignalWatchStop,
                ).push((WorkerAction::NotifyListener { status: ServerStatus::Wait }))
            },
            old(self).watch_tx is Some && old(self).worker_handlers@.len() > 0 ==> {
                &&& final(self).listener == old(self).listener
                &&& final(self).pending@ == old(self).pending@.push(
                    WorkerAction::SignalWatchStop,
                )
            },
            final(self).id == old(self).id,
            final(self).project == old(self).project,
            final(self).port == old(self).port,
            final(self).open_debug_server == old(self).open_debug_server,
            final(self).worker_handlers == old(self).worker_handlers,
    {
        match self.watch_tx {
            None => {},
            Some(_) => {
                self.watch_tx = None;
                self.pending.push(WorkerAction::SignalWatchStop);
                if self.worker_handlers.len() == 0 {
                    self.listener = ListenerState::Rejecting;
                    self.pending.push(WorkerAction::NotifyListener { status: ServerStatus::Wait });
                }
            },
        }
    }

    /// Start one production script-runtime instance.
    ///
    /// Multiple instances may run concurrently for the same tenant; each gets
    /// a fresh cancellation handle, pushed onto the instance stack. If this
    /// is the first instance, the listener loop is told to accept.
    pub fn start_runtime(&mut self)
        requires
            old(self).live(),
        ensures
            final(self).live(),
            final(self).worker_handlers@ == old(self).worker_handlers@.push(
                (Terminate { instance_id: old(self).worker_handlers@.len() as usize }),
            ),
            final(self).listener is Accepting,
            final(self).pending@ == old(self).pending@.push(
                (WorkerAction::SpawnRuntime {
                    instance_id: old(self).worker_handlers@.len() as usize,
                    debug: old(self).open_debug_server,
                }),
            ) + (if old(self).worker_handlers@.len() == 0 {
                seq![(WorkerAction::NotifyListener { status: ServerStatus::Start })]
            } else {
                Seq::<WorkerAction>::empty()
            }),
            final(self).id == old(self).id,
            final(self).project == old(self).project,
            final(self).port == old(self).port,
            final(self).open_debug_server == old(self).open_debug_server,
            final(self).watch_tx == old(self).watch_tx,
    {
        let instance_id = self.worker_handlers.len();
        let was_empty = instance_id == 0;
        self.pending.push(WorkerAction::SpawnRuntime {
            instance_id,
            debug: self.open_debug_server,
        });
        self.worker_handlers.push(Terminate { instance_id });
        self.listener = ListenerState::Accepting;
        if was_empty {
            self.pending.push(WorkerAction::NotifyListener { status: ServerStatus::Start });
        }
        proof {
            assert(self.pending@ =~= old(self).pending@.push(
                (WorkerAction::SpawnRuntime {
                    instance_id: old(self).worker_handlers@.len() as usize,
                    debug: old(self).open_debug_server,
                }),
            ) + (if old(self).worker_handlers@.len() == 0 {
                seq![(WorkerAction::NotifyListener { status: ServerStatus::Start })]
            } else {
                Seq::<WorkerAction>::empty()
            }));
        }
    }

    /// Start a production instance with the debugger endpoint open, but only
    /// when no production instance is currently running: a second debugger
    /// endpoint must never be opened on the same port, so with an instance
    /// running the call changes nothing, not even the debug flag.
    pub fn start_debugger_runtime(&mut self)
        requires
            old(self).live(),
        ensures
            final(self).live(),
            old(self).worker_handlers@.len() > 0 ==> *final(self) == *old(self),
            old(self).worker_handlers@.len() == 0 ==> {
                &&& final(self).open_debug_server
                &&& final(self).worker_handlers@ == old(self).worker_handlers@.push(
                    (Terminate { instance_id: 0 }),
                )
                &&& final(self).listener is Accepting
                &&& final(self).pending@ == old(self).pending@.push(
                    (WorkerAction::SpawnRuntime { instance_id: 0, debug: true }),
                ).push((WorkerAction::NotifyListener { status: ServerStatus::Start }))
                &&& final(self).id == old(self).id
                &&& final(self).project == old(self).project
                &&& final(self).port == old(self).port
                &&& final(self).watch_tx == old(self).watch_tx
            },
    {
        if self.worker_handlers.len() == 0 {
            self.open_debug_server = true;
            self.start_runtime();
            proof {
                assert(self.pending@ =~= old(self).pending@.push(
                    (WorkerAction::SpawnRuntime { instance_id: 0, debug: true }),
                ).push((WorkerAction::NotifyListener { status: ServerStatus::Start })));
            }
        }
    }

    /// Stop the most recently started production instance, if any.
    ///
    /// Pops the top of the instance stack (last started, first stopped) and
    /// dispatches its termination signal asynchronously. When the last
    /// instance goes and development mode is not active, the listener loop is
    /// told to reject. Returns whether an instance was actually stopped;
    /// with none running this is a tolerant no-op reporting `false`.
    pub fn stop_runtime(&mut self) -> (stopped: bool)
        requires
            old(self).live(),
        ensures
            final(self).live(),
            stopped == (old(self).worker_handlers@.len() > 0),
            !stopped ==> *final(self) == *old(self),
            stopped ==> {
                &&& final(self).worker_handlers@ == old(self).worker_handlers@.drop_last()
                &&& (if old(self).worker_handlers@.len() == 1 && old(self).watch_tx is None {
                    &&& final(self).listener is Rejecting
                    &&& final(self).pending@ == old(self).pending@.push(
                        (WorkerAction::SignalInstanceStop {
                            instance_id: old(self).worker_handlers@.last().instance_id,
                        }),
                    ).push((WorkerAction::NotifyListener { status: ServerStatus::Wait }))
                } else {
                    &&& final(self).listener == old(self).listener
                    &&& final(self).pending@ == old(self).pending@.push(
                        (WorkerAction::SignalInstanceStop {
                            instance_id: old(self).worker_handlers@.last().instance_id,
                        }),
                    )
                })
                &&& final(self).id == old(self).id
                &&& final(self).project == old(self).project
                &&& final(self).port == old(self).port
                &&& final(self).open_debug_server == old(self).open_debug_server
                &&& final(self).watch_tx == old(self).watch_tx
            },
    {
        if self.worker_handlers.len() == 0 {
            return false;
        }
        let hand = self.worker_handlers.pop().unwrap();
        self.pending.push(WorkerAction::SignalInstanceStop { instance_id: hand.instance_id });
        if self.worker_handlers.len() == 0 && self.watch_tx.is_none() {
            self.listener = ListenerState::Rejecting;
            self.pending.push(WorkerAction::NotifyListener { status: ServerStatus::Wait });
        }
        true
    }

    /// Stop everything: the development-mode runtime, then every production
    /// instance, newest first. Afterwards nothing consumes connections, so
    /// the listener loop rejects. The queued actions are exactly the owed
    /// teardown signals: the watch cancellation, one stop per held handle in
    /// reverse start order, and the due `Wait`.
    pub fn stop_all_runtime(&mut self)
        requires
            old(self).live(),
        ensures
            final(self).live(),
            final(self).worker_handlers@.len() == 0,
            final(self).watch_tx is None,
            final(self).listener is Rejecting,
            final(self).pending@ == old(self).pending@ + stop_all_actions(
                old(self).worker_handlers@,
                old(self).watch_tx is Some,
            ),
            final(self).id == old(self).id,
            final(self).project == old(self).project,
            final(self).port == old(self).port,
            final(self).open_debug_server == old(self).open_debug_server,
    {
        let ghost wait_msg = WorkerAction::NotifyListener { status: ServerStatus::Wait };
        let ghost target = old(self).pending@ + stop_all_actions(
            old(self).worker_handlers@,
            old(self).watch_tx is Some,
        );
        self.stop_watch_runtime();
        proof {
            if old(self).worker_handlers@.len() == 0 {
                if old(self).watch_tx is Some {
                    assert(instance_stop_signals(old(self).worker_handlers@)
                        =~= Seq::<WorkerAction>::empty());
                    assert(self.pending@ =~= target);
                } else {
                    assert(self.pending@ =~= target);
                }
            } else {
                assert(self.pending@ + instance_stop_signals(self.worker_handlers@) + seq![
                    wait_msg,
                ] =~= target);
            }
        }
        loop
            invariant
                self.live(),
                self.watch_tx is None,
                wait_msg == (WorkerAction::NotifyListener { status: ServerStatus::Wait }),
                self.worker_handlers@.len() > 0 ==> self.pending@ + instance_stop_signals(
                    self.worker_handlers@,
                ) + seq![wait_msg] == target,
                self.worker_handlers@.len() == 0 ==> self.pending@ == target,
                self.id == old(self).id,
                self.project == old(self).project,
                self.port == old(self).port,
                self.open_debug_server == old(self).open_debug_server,
            ensures
                self.live(),
                self.watch_tx is None,
                self.worker_handlers@.len() == 0,
                self.pending@ == target,
                self.id == old(self).id,
                self.project == old(self).project,
                self.port == old(self).port,
                self.open_debug_server == old(self).open_debug_server,
            decreases self.worker_handlers@.len(),
        {
            let ghost pre_handlers = self.worker_handlers@;
            let ghost pre_pending = self.pending@;
            if !self.stop_runtime() {
                break;
            }
            proof {
                if pre_handlers.len() == 1 {
                    assert(instance_stop_signals(pre_handlers.drop_last())
                        =~= Seq::<WorkerAction>::empty());
                    assert(instance_stop_signals(pre_handlers) =~= seq![
                        (WorkerAction::SignalInstanceStop {
                            instance_id: pre_handlers.last().instance_id,
                        }),
                    ]);
                    assert(self.pending@ =~= pre_pending + instance_stop_signals(pre_handlers)
                        + seq![wait_msg]);
                } else {
                    assert(self.pending@ + instance_stop_signals(self.worker_handlers@) + seq![
                        wait_msg,
                    ] =~= pre_pending + instance_stop_signals(pre_handlers) + seq![wait_msg]);
                }
            }
        }
        proof {
            assert(self.listener is Rejecting);
        }
    }

    /// Tear the worker down, modelling its destruction on removal from the
    /// registry: stop everything, then command the listener loop to exit and
    /// release its listener. The caller removes the tenant's port-table entry
    /// before invoking this, so no new connection is routed to a port whose
    /// listener is about to die. The queued actions are the owed teardown
    /// signals with the `Exit` notification last, so every stop signal is
    /// dispatched before the listener is released.
    pub fn shutdown(&mut self)
        requires
            old(self).live(),
        ensures
            final(self).wf(),
            final(self).listener is Terminated,
            final(self).worker_handlers@.len() == 0,
            final(self).watch_tx is None,
            final(self).pending@ == old(self).pending@ + stop_all_actions(
                old(self).worker_handlers@,
                old(self).watch_tx is Some,
            ) + seq![(WorkerAction::NotifyListener { status: ServerStatus::Exit })],
            final(self).id == old(self).id,
            final(self).project == old(self).project,
            final(self).port == old(self).port,
            final(self).open_debug_server == old(self).open_debug_server,
    {
        self.stop_all_runtime();
        self.pending.push(WorkerAction::NotifyListener { status: ServerStatus::Exit });
        self.listener = ListenerState::Terminated;
        proof {
            assert(self.pending@ =~= old(self).pending@ + stop_all_actions(
                old(self).worker_handlers@,
                old(self).watch_tx is Some,
            ) + seq![(WorkerAction::NotifyListener { status: ServerStatus::Exit })]);
        }
    }
}

/// While a worker is live, its listener loop accepts if and only if at least
/// one production instance is running or development mode is active. This is
/// the core synchronization invariant of the gateway; every lifecycle
/// operation above preserves it.
pub proof fn lemma_accept_reject_invariant(w: ScriptWorkerThread)
    requires
        w.live(),
    ensures
        (w.listener is Accepting) <==> (w.worker_handlers@.len() > 0 || w.watch_tx is Some),
{
}

/// Port-space exhaustion: no candidate above the allocator's cursor was free
/// before the 16-bit port space ran out. Fatal for the single `start` call
/// that hit it; the shared cursor is left untouched for other tenants.
#[derive(Debug, Clone, Copy, PartialEq, Eq, Structural)]
pub struct NoFreePort;

/// Relies on port_selector::is_free: whether `port` is currently unbound for
/// both TCP and UDP on this machine. The answer depends on the machine's
/// state at the instant of the probe, so nothing is promised of it.
#[verifier::external_body]
fn probe_port_free(port: u16) -> bool {
    port_selector::is_free(port)
}

/// Assign a fresh port: advance a candidate past the shared cursor until the
/// operating system reports one free, then move the cursor onto it. The
/// caller must serialize concurrent assignments on the cursor; the returned
/// ports of successive assignments are then pairwise distinct
/// (`lemma_assigned_ports_distinct`). When no candidate up to the end of the
/// 16-bit space is free, the cursor is left unchanged and the failure is
/// reported to the caller instead of wrapping around onto a port that may
/// belong to another tenant.
pub fn assign_port(cursor: &mut WorkerPort) -> (r: Result<WorkerPort, NoFreePort>)
    ensures
        r matches Ok(p) ==> old(cursor).0 < p.0 && *final(cursor) == p,
        r is Err ==> *final(cursor) == *old(cursor),
{
    let start: u16 = cursor.0;
    let mut candidate: u16 = start;
    loop
        invariant
            start <= candidate <= u16::MAX,
            *cursor == *old(cursor),
            cursor.0 == start,
        decreases u16::MAX - candidate,
    {
        if candidate == u16::MAX {
            return Err(NoFreePort);
        }
        candidate = candidate + 1;
        if probe_port_free(candidate) {
            *cursor = WorkerPort(candidate);
            return Ok(WorkerPort(candidate));
        }
    }
}

/// Ports assigned through one shared cursor are pairwise distinct: each
/// successful assignment returns a port strictly above the cursor it started
/// from and leaves the cursor on that port, so over any serialized sequence
/// of assignments (`cursors[i]` before the `i`-th, which returned `ports[i]`)
/// no two returned ports coincide.
pub proof fn lemma_assigned_ports_distinct(cursors: Seq<u16>, ports: Seq<u16>)
    requires
        cursors.len() == ports.len() + 1,
        forall|i: int|
            0 <= i < ports.len() ==> cursors[i] < #[trigger] ports[i] && ports[i] == cursors[i + 1],
    ensures
        forall|i: int, j: int| 0 <= i < j < ports.len() ==> ports[i] != ports[j],
{
    assert forall|i: int, j: int| 0 <= i < j < ports.len() implies ports[i] != ports[j] by {
        lemma_cursors_increasing(cursors, ports, i + 1, j);
    }
}

/// The allocator's cursor only moves up: between any two points of a
/// serialized sequence of successful assignments it is nondecreasing.
proof fn lemma_cursors_increasing(cursors: Seq<u16>, ports: Seq<u16>, i: int, j: int)
    requires
        cursors.len() == ports.len() + 1,
        forall|k: int|
            0 <= k < ports.len() ==> cursors[k] < #[trigger] ports[k] && ports[k] == cursors[k + 1],
        0 <= i <= j < cursors.len(),
    ensures
        cursors[i] <= cursors[j],
    decreases j - i,
{
    if i < j {
        lemma_cursors_increasing(cursors, ports, i, j - 1);
        assert(cursors[j - 1] < ports[j - 1]);
    }
}

/// The instance stack a worker holds after `n` production starts from idle:
/// instances `0` up to `n`, in start order. `start_runtime` ensures exactly
/// this shape (each start pushes the handle of the next slot), and
/// `stop_runtime` pops its top.
pub open spec fn stack_after_starts(n: nat) -> Seq<Terminate> {
    Seq::new(n, |i: int| Terminate { instance_id: i as usize })
}

/// A well-formed worker's instance stack always has exactly this shape: each
/// handle on the stack names its own slot.
pub proof fn lemma_stack_shape(w: ScriptWorkerThread)
    requires
        w.wf(),
    ensures
        w.worker_handlers@ == stack_after_starts(w.worker_handlers@.len()),
{
    assert(w.worker_handlers@ =~= stack_after_starts(w.worker_handlers@.len()));
}

/// Starts stack up: one more production start from a stack of `n` pushes the
/// handle of instance `n`, as `start_runtime`'s contract states of a worker
/// holding that stack.
pub proof fn lemma_starts_build_stack(n: nat)
    requires
        n < usize::MAX,
    ensures
        stack_after_starts(n + 1) == stack_after_starts(n).push(
            (Terminate { instance_id: n as usize }),
        ),
{
    assert(stack_after_starts(n + 1) =~= stack_after_starts(n).push(
        (Terminate { instance_id: n as usize }),
    ));
}

/// Stops reverse starts: from a stack of `n` started instances, the next
/// stop signals the last-started instance, `n - 1`, and leaves the stack of
/// the first `n - 1` — so successive stops signal the instances in reverse
/// start order until the stack is empty, where `stop_runtime` reports
/// nothing left to stop.
pub proof fn lemma_stops_reverse_starts(n: nat)
    requires
        0 < n <= usize::MAX,
    ensures
        stack_after_starts(n).last() == (Terminate { instance_id: (n - 1) as usize }),
        stack_after_starts(n).drop_last() == stack_after_starts((n - 1) as nat),
{
    assert(stack_after_starts(n).drop_last() =~= stack_after_starts((n - 1) as nat));
}

} // verus!
