//! Decisions of the runtime control routes: start, stop, restart, debug,
//! info, and exit of one tenant's worker, keyed by the `product_code` path
//! segment. Each function performs the state change on the gateway state and
//! returns the response envelope; queued `WorkerAction`s are left on the
//! touched worker for the application to drain (the worker handed back by
//! `exit` carries its teardown actions). The contracts pin those queues: a
//! route that reports success owes exactly the spawns, stop signals and
//! listener notifications stated here.

use vstd::prelude::*;

use crate::registry::GatewayState;
use crate::worker_util::stop_all_actions;
use crate::worker_util::NoFreePort;
use crate::worker_util::Project;
use crate::worker_util::ScriptWorkerId;
use crate::worker_util::ScriptWorkerThread;
use crate::worker_util::ServerStatus;
use crate::worker_util::Terminate;
use crate::worker_util::WorkerAction;
use crate::Res;

verus! {

/// What the info route reports of one tenant.
#[derive(Debug, Clone)]
pub struct WorkerInfo {
    /// Number of running instances; development mode counts as one when no
    /// production instance runs.
    pub count: usize,
    /// The tenant's product code.
    pub code: String,
    /// Human-readable description of how to reach the tenant.
    pub description: String,
}

/// Create the control object of a tenant that has none yet: assign a fresh
/// port (strictly above the shared cursor, which moves onto it; recorded in
/// the port table, where the router will find it) and build the worker around
/// the tenant's conventional script entry point, `code/<product_code>/app.ts`.
/// On port-space exhaustion nothing changes and the failure is reported.
fn create_worker(state: &mut GatewayState, product_code: &str) -> (r: Result<
    ScriptWorkerThread,
    NoFreePort,
>)
    requires
        old(state).workers.wf(),
        old(state).ports.wf(),
    ensures
        final(state).workers == old(state).workers,
        final(state).workers.wf(),
        final(state).ports.wf(),
        r is Err ==> *final(state) == *old(state),
        r matches Ok(w) ==> {
            &&& w.live()
            &&& w.id@ == product_code@
            &&& w.project.name@ == product_code@
            &&& w.project.path@ == "code/"@ + product_code@ + "/app.ts"@
            &&& !w.open_debug_server
            &&& w.worker_handlers@.len() == 0
            &&& w.watch_tx is None
            &&& w.listener is Rejecting
            &&& w.pending@.len() == 0
            &&& old(state).cursor.0 < w.port.0
            &&& final(state).cursor == w.port
            &&& final(state).ports.spec_get(product_code@) == Some(w.port)
            &&& forall|k: Seq<char>|
                k != product_code@ ==> #[trigger] final(state).ports.spec_get(k) == old(state).ports.spec_get(k)
        },
{
    let port = match crate::worker_util::assign_port(&mut state.cursor) {
        Ok(p) => p,
        Err(e) => {
            return Err(e);
        },
    };
    let mut path = String::from_str("code/");
    path.append(product_code);
    path.append("/app.ts");
    proof {
        assert(path@ =~= "code/"@ + product_code@ + "/app.ts"@);
    }
    let project = Project { name: String::from_str(product_code), path };
    let w = ScriptWorkerThread::new(project, port);
    state.ports.insert(ScriptWorkerId(String::from_str(product_code)), port);
    Ok(w)
}

/// Report the tenant's running-instance count and a reachability note. A
/// tenant with no worker reports zero instances; development mode counts as
/// one instance when no production instance runs.
pub fn get_runtime_info(state: &GatewayState, product_code: &str) -> (r: Res<WorkerInfo>)
    requires
        state.wf(),
    ensures
        r.code == 0,
        r.data.code@ == product_code@,
        !state.workers.contains_key(product_code@) ==> r.data.count == 0
            && r.data.description@ == "暂无实例"@,
        state.workers.spec_get(product_code@) matches Some(w) ==> {
            &&& r.data.count as int == (if w.worker_handlers@.len() == 0 && w.watch_tx is Some {
                1int
            } else {
                w.worker_handlers@.len() as int
            })
            &&& r.data.description@ == "请求头上添加 product_code="@ + product_code@
        },
{
    let id = ScriptWorkerId(String::from_str(product_code));
    match state.workers.get(&id) {
        None => Res {
            code: 0,
            data: WorkerInfo {
                count: 0,
                code: String::from_str(product_code),
                description: String::from_str("暂无实例"),
            },
        },
        Some(w) => {
            let mut count = w.worker_handlers.len();
            if count == 0 && w.watch_tx.is_some() {
                count = 1;
            }
            let mut description = String::from_str("请求头上添加 product_code=");
            description.append(product_code);
            Res {
                code: 0,
                data: WorkerInfo { count, code: String::from_str(product_code), description },
            }
        },
    }
}

/// Start or resume the tenant's development-mode runtime: an existing worker
/// gets its watch runtime started (a no-op when one is already active, the
/// watch spawn and `Start` notification queued otherwise); a tenant without a
/// worker gets one created first. Fails only when a new worker is needed and
/// no free port exists, in which case nothing changes.
pub fn start_runtime(state: &mut GatewayState, product_code: &str) -> (r: Result<
    Res<String>,
    NoFreePort,
>)
    requires
        old(state).wf(),
    ensures
        final(state).wf(),
        old(state).workers.contains_key(product_code@) ==> r is Ok,
        r is Err ==> *final(state) == *old(state),
        r matches Ok(res) ==> {
            &&& res.code == 0
            &&& res.data@ == "成功启动"@
            &&& (final(state).workers.spec_get(product_code@) matches Some(w) && w.watch_tx is Some
                && w.listener is Accepting)
        },
        old(state).workers.spec_get(product_code@) matches Some(w) ==> (final(state).workers.spec_get(product_code@) matches Some(w2) && w2.worker_handlers@
            == w.worker_handlers@ && w2.port == w.port && w2.project == w.project
            && w2.open_debug_server == w.open_debug_server && (w.watch_tx is Some ==> w2 == w) && (
        w.watch_tx is None ==> w2.pending@ == w.pending@.push(
            WorkerAction::SpawnWatchRuntime,
        ).push((WorkerAction::NotifyListener { status: ServerStatus::Start })))),
        !old(state).workers.contains_key(product_code@) && r is Ok ==> (final(state).workers.spec_get(product_code@) matches Some(w2) && w2.worker_handlers@.len() == 0
            && !w2.open_debug_server && w2.project.name@ == product_code@ && w2.project.path@
            == "code/"@ + product_code@ + "/app.ts"@ && w2.pending@ == seq![
            WorkerAction::SpawnWatchRuntime,
            (WorkerAction::NotifyListener { status: ServerStatus::Start }),
        ] && old(state).cursor.0 < w2.port.0 && final(state).cursor == w2.port),
        old(state).workers.contains_key(product_code@) ==> final(state).ports == old(state).ports
            && final(state).cursor == old(state).cursor,
        forall|k: Seq<char>|
            k != product_code@ ==> #[trigger] final(state).workers.spec_get(k) == old(state).workers.spec_get(k) && final(state).ports.spec_get(k) == old(state).ports.spec_get(k),
    {
    let id = ScriptWorkerId(String::from_str(product_code));
    match state.workers.remove(&id) {
        Some(mut w) => {
            let ghost w0 = w;
            w.start_watch_runtime();
            let ghost w1 = w;
            state.workers.insert(id, w);
            proof {
                GatewayState::lemma_wf_after_reinsert(*old(state), *state, product_code@, w0, w1);
            }
            Ok(Res { code: 0, data: String::from_str("成功启动") })
        },
        None => {
            match create_worker(state, product_code) {
                Err(e) => Err(e),
                Ok(mut w) => {
                    w.start_watch_runtime();
                    let ghost w1 = w;
                    proof {
                        assert(w1.pending@ =~= seq![
                            WorkerAction::SpawnWatchRuntime,
                            (WorkerAction::NotifyListener { status: ServerStatus::Start }),
                        ]);
                    }
                    state.workers.insert(id, w);
                    proof {
                        GatewayState::lemma_wf_after_create(*old(state), *state, product_code@, w1);
                    }
                    Ok(Res { code: 0, data: String::from_str("成功启动") })
                },
            }
        },
    }
}

/// Restart the tenant's development-mode runtime: stop the watch runtime if
/// one is active (queueing its cancellation, and the due `Wait` when nothing
/// else runs), then start a fresh one; a tenant without a worker gets one
/// created and started. Fails only when a new worker is needed and no free
/// port exists, in which case nothing changes.
pub fn restart_runtime(state: &mut GatewayState, product_code: &str) -> (r: Result<
    Res<String>,
    NoFreePort,
>)
    requires
        old(state).wf(),
    ensures
        final(state).wf(),
        old(state).workers.contains_key(product_code@) ==> r is Ok,
        r is Err ==> *final(state) == *old(state),
        r matches Ok(res) ==> {
            &&& res.code == 0
            &&& res.data@ == "成功启动"@
            &&& (final(state).workers.spec_get(product_code@) matches Some(w) && w.watch_tx is Some
                && w.listener is Accepting)
        },
        old(state).workers.spec_get(product_code@) matches Some(w) ==> (final(state).workers.spec_get(product_code@) matches Some(w2) && w2.worker_handlers@
            == w.worker_handlers@ && w2.port == w.port && w2.project == w.project
            && w2.open_debug_server == w.open_debug_server && (w.watch_tx is None ==> w2.pending@
            == w.pending@.push(WorkerAction::SpawnWatchRuntime).push(
            (WorkerAction::NotifyListener { status: ServerStatus::Start }),
        )) && (w.watch_tx is Some && w.worker_handlers@.len() == 0 ==> w2.pending@
            == w.pending@.push(WorkerAction::SignalWatchStop).push(
            (WorkerAction::NotifyListener { status: ServerStatus::Wait }),
        ).push(WorkerAction::SpawnWatchRuntime).push(
            (WorkerAction::NotifyListener { status: ServerStatus::Start }),
        )) && (w.watch_tx is Some && w.worker_handlers@.len() > 0 ==> w2.pending@
            == w.pending@.push(WorkerAction::SignalWatchStop).push(
            WorkerAction::SpawnWatchRuntime,
        ).push((WorkerAction::NotifyListener { status: ServerStatus::Start })))),
        !old(state).workers.contains_key(product_code@) && r is Ok ==> (final(state).workers.spec_get(product_code@) matches Some(w2) && w2.worker_handlers@.len() == 0
            && !w2.open_debug_server && w2.project.name@ == product_code@ && w2.project.path@
            == "code/"@ + product_code@ + "/app.ts"@ && w2.pending@ == seq![
            WorkerAction::SpawnWatchRuntime,
            (WorkerAction::NotifyListener { status: ServerStatus::Start }),
        ] && old(state).cursor.0 < w2.port.0 && final(state).cursor == w2.port),
        old(state).workers.contains_key(product_code@) ==> final(state).ports == old(state).ports
            && final(state).cursor == old(state).cursor,
        forall|k: Seq<char>|
            k != product_code@ ==> #[trigger] final(state).workers.spec_get(k) == old(state).workers.spec_get(k) && final(state).ports.spec_get(k) == old(state).ports.spec_get(k),
    {
    let id = ScriptWorkerId(String::from_str(product_code));
    match state.workers.remove(&id) {
        Some(mut w) => {
            let ghost w0 = w;
            w.stop_watch_runtime();
            w.start_watch_runtime();
            let ghost w1 = w;
            state.workers.insert(id, w);
            proof {
                GatewayState::lemma_wf_after_reinsert(*old(state), *state, product_code@, w0, w1);
            }
            Ok(Res { code: 0, data: String::from_str("成功启动") })
        },
        None => {
            match create_worker(state, product_code) {
                Err(e) => Err(e),
                Ok(mut w) => {
                    w.start_watch_runtime();
                    let ghost w1 = w;
                    proof {
                        assert(w1.pending@ =~= seq![
                            WorkerAction::SpawnWatchRuntime,
                            (WorkerAction::NotifyListener { status: ServerStatus::Start }),
                        ]);
                    }
                    state.workers.insert(id, w);
                    proof {
                        GatewayState::lemma_wf_after_create(*old(state), *state, product_code@, w1);
                    }
                    Ok(Res { code: 0, data: String::from_str("成功启动") })
                },
            }
        },
    }
}

/// Start the tenant's runtime with the debugger endpoint open. On a worker
/// with a production instance already running this changes nothing (a second
/// debugger endpoint must never be opened on the same port); otherwise the
/// debug flag is set and one production instance started, with its spawn and
/// the `Start` notification queued. A tenant without a worker gets one
/// created first; that fails only when no free port exists, in which case
/// nothing changes.
pub fn start_debugger_runtime(state: &mut GatewayState, product_code: &str) -> (r: Result<
    Res<String>,
    NoFreePort,
>)
    requires
        old(state).wf(),
    ensures
        final(state).wf(),
        old(state).workers.contains_key(product_code@) ==> r is Ok,
        r is Err ==> *final(state) == *old(state),
        r matches Ok(res) ==> res.code == 0 && res.data@ == "成功启动"@,
        old(state).workers.spec_get(product_code@) matches Some(w) ==> {
            &&& w.worker_handlers@.len() > 0 ==> final(state).workers.spec_get(product_code@)
                == Some(w)
            &&& w.worker_handlers@.len() == 0 ==> (final(state).workers.spec_get(product_code@)
                matches Some(w2) && w2.open_debug_server && w2.worker_handlers@.len() == 1
                && w2.listener is Accepting && w2.pending@ == w.pending@.push(
                (WorkerAction::SpawnRuntime { instance_id: 0, debug: true }),
            ).push((WorkerAction::NotifyListener { status: ServerStatus::Start })))
        },
        !old(state).workers.contains_key(product_code@) && r is Ok ==> (final(state).workers.spec_get(product_code@) matches Some(w2) && w2.open_debug_server
            && w2.worker_handlers@.len() == 1 && w2.listener is Accepting && w2.pending@ == seq![
            (WorkerAction::SpawnRuntime { instance_id: 0, debug: true }),
            (WorkerAction::NotifyListener { status: ServerStatus::Start }),
        ] && old(state).cursor.0 < w2.port.0 && final(state).cursor == w2.port),
        old(state).workers.contains_key(product_code@) ==> final(state).ports == old(state).ports
            && final(state).cursor == old(state).cursor,
        forall|k: Seq<char>|
            k != product_code@ ==> #[trigger] final(state).workers.spec_get(k) == old(state).workers.spec_get(k) && final(state).ports.spec_get(k) == old(state).ports.spec_get(k),
    {
    let id = ScriptWorkerId(String::from_str(product_code));
    match state.workers.remove(&id) {
        Some(mut w) => {
            let ghost w0 = w;
            w.start_debugger_runtime();
            let ghost w1 = w;
            state.workers.insert(id, w);
            proof {
                GatewayState::lemma_wf_after_reinsert(*old(state), *state, product_code@, w0, w1);
            }
            Ok(Res { code: 0, data: String::from_str("成功启动") })
        },
        None => {
            match create_worker(state, product_code) {
                Err(e) => Err(e),
                Ok(mut w) => {
                    w.start_debugger_runtime();
                    let ghost w1 = w;
                    proof {
                        assert(w1.pending@ =~= seq![
                            (WorkerAction::SpawnRuntime { instance_id: 0, debug: true }),
                            (WorkerAction::NotifyListener { status: ServerStatus::Start }),
                        ]);
                    }
                    state.workers.insert(id, w);
                    proof {
                        GatewayState::lemma_wf_after_create(*old(state), *state, product_code@, w1);
                    }
                    Ok(Res { code: 0, data: String::from_str("成功启动") })
                },
            }
        },
    }
}

/// Stop the tenant's development-mode runtime, if any, queueing its
/// cancellation signal and, when no production instance runs either, the
/// `Wait` notification; a tenant without a worker, or without an active watch
/// runtime, is left as it is.
pub fn stop_runtime(state: &mut GatewayState, product_code: &str) -> (r: Res<String>)
    requires
        old(state).wf(),
    ensures
        final(state).wf(),
        r.code == 0,
        r.data@ == "停止成功"@,
        !old(state).workers.contains_key(product_code@) ==> *final(state) == *old(state),
        old(state).workers.spec_get(product_code@) matches Some(w) ==> (final(state).workers.spec_get(product_code@) matches Some(w2) && w2.watch_tx is None
            && w2.worker_handlers@ == w.worker_handlers@ && (w.worker_handlers@.len() == 0
            ==> w2.listener is Rejecting) && (w.watch_tx is None ==> w2 == w) && (w.watch_tx
            is Some && w.worker_handlers@.len() == 0 ==> w2.pending@ == w.pending@.push(
            WorkerAction::SignalWatchStop,
        ).push((WorkerAction::NotifyListener { status: ServerStatus::Wait }))) && (w.watch_tx
            is Some && w.worker_handlers@.len() > 0 ==> w2.pending@ == w.pending@.push(
            WorkerAction::SignalWatchStop,
        ) && w2.listener == w.listener)),
        forall|k: Seq<char>|
            k != product_code@ ==> #[trigger] final(state).workers.spec_get(k) == old(state).workers.spec_get(k),
        final(state).ports == old(state).ports,
        final(state).cursor == old(state).cursor,
    {
    let id = ScriptWorkerId(String::from_str(product_code));
    match state.workers.remove(&id) {
        Some(mut w) => {
            let ghost w0 = w;
            w.stop_watch_runtime();
            let ghost w1 = w;
            state.workers.insert(id, w);
            proof {
                GatewayState::lemma_wf_after_reinsert(*old(state), *state, product_code@, w0, w1);
            }
        },
        None => {},
    }
    Res { code: 0, data: String::from_str("停止成功") }
}

/// Start one production script-runtime instance for the tenant, queueing its
/// spawn (and, for the first instance, the `Start` notification) and creating
/// the worker first when none exists. Fails only when a new worker is needed
/// and no free port exists, in which case nothing changes.
pub fn start_pro_runtime(state: &mut GatewayState, product_code: &str) -> (r: Result<
    Res<String>,
    NoFreePort,
>)
    requires
        old(state).wf(),
    ensures
        final(state).wf(),
        old(state).workers.contains_key(product_code@) ==> r is Ok,
        r is Err ==> *final(state) == *old(state),
        r matches Ok(res) ==> {
            &&& res.code == 0
            &&& res.data@ == "成功启动"@
            &&& (final(state).workers.spec_get(product_code@) matches Some(w2) && w2.listener
                is Accepting)
        },
        old(state).workers.spec_get(product_code@) matches Some(w) ==> (final(state).workers.spec_get(product_code@) matches Some(w2) && w2.worker_handlers@
            == w.worker_handlers@.push(
            (Terminate { instance_id: w.worker_handlers@.len() as usize }),
        ) && w2.watch_tx == w.watch_tx && w2.port == w.port && w2.project == w.project
            && w2.open_debug_server == w.open_debug_server && w2.pending@ == w.pending@.push(
            (WorkerAction::SpawnRuntime {
                instance_id: w.worker_handlers@.len() as usize,
                debug: w.open_debug_server,
            }),
        ) + (if w.worker_handlers@.len() == 0 {
            seq![(WorkerAction::NotifyListener { status: ServerStatus::Start })]
        } else {
            Seq::<WorkerAction>::empty()
        })),
        !old(state).workers.contains_key(product_code@) && r is Ok ==> (final(state).workers.spec_get(product_code@) matches Some(w2) && w2.worker_handlers@.len() == 1
            && w2.watch_tx is None && !w2.open_debug_server && w2.project.name@ == product_code@
            && w2.project.path@ == "code/"@ + product_code@ + "/app.ts"@ && w2.pending@ == seq![
            (WorkerAction::SpawnRuntime { instance_id: 0, debug: false }),
            (WorkerAction::NotifyListener { status: ServerStatus::Start }),
        ] && old(state).cursor.0 < w2.port.0 && final(state).cursor == w2.port),
        old(state).workers.contains_key(product_code@) ==> final(state).ports == old(state).ports
            && final(state).cursor == old(state).cursor,
        forall|k: Seq<char>|
            k != product_code@ ==> #[trigger] final(state).workers.spec_get(k) == old(state).workers.spec_get(k) && final(state).ports.spec_get(k) == old(state).ports.spec_get(k),
    {
    let id = ScriptWorkerId(String::from_str(product_code));
    match state.workers.remove(&id) {
        Some(mut w) => {
            let ghost w0 = w;
            w.start_runtime();
            let ghost w1 = w;
            state.workers.insert(id, w);
            proof {
                GatewayState::lemma_wf_after_reinsert(*old(state), *state, product_code@, w0, w1);
            }
            Ok(Res { code: 0, data: String::from_str("成功启动") })
        },
        None => {
            match create_worker(state, product_code) {
                Err(e) => Err(e),
                Ok(mut w) => {
                    w.start_runtime();
                    let ghost w1 = w;
                    proof {
                        assert(w1.pending@ =~= seq![
                            (WorkerAction::SpawnRuntime { instance_id: 0, debug: false }),
                            (WorkerAction::NotifyListener { status: ServerStatus::Start }),
                        ]);
                    }
                    state.workers.insert(id, w);
                    proof {
                        GatewayState::lemma_wf_after_create(*old(state), *state, product_code@, w1);
                    }
                    Ok(Res { code: 0, data: String::from_str("成功启动") })
                },
            }
        },
    }
}

/// Restart route of the production API; it starts one further production
/// instance, creating the worker first when none exists, exactly as
/// `start_pro_runtime`.
pub fn restart_pro_runtime(state: &mut GatewayState, product_code: &str) -> (r: Result<
    Res<String>,
    NoFreePort,
>)
    requires
        old(state).wf(),
    ensures
        final(state).wf(),
        old(state).workers.contains_key(product_code@) ==> r is Ok,
        r is Err ==> *final(state) == *old(state),
        r matches Ok(res) ==> {
            &&& res.code == 0
            &&& res.data@ == "成功启动"@
            &&& (final(state).workers.spec_get(product_code@) matches Some(w2) && w2.listener
                is Accepting)
        },
        old(state).workers.spec_get(product_code@) matches Some(w) ==> (final(state).workers.spec_get(product_code@) matches Some(w2) && w2.worker_handlers@
            == w.worker_handlers@.push(
            (Terminate { instance_id: w.worker_handlers@.len() as usize }),
        ) && w2.watch_tx == w.watch_tx && w2.pending@ == w.pending@.push(
            (WorkerAction::SpawnRuntime {
                instance_id: w.worker_handlers@.len() as usize,
                debug: w.open_debug_server,
            }),
        ) + (if w.worker_handlers@.len() == 0 {
            seq![(WorkerAction::NotifyListener { status: ServerStatus::Start })]
        } else {
            Seq::<WorkerAction>::empty()
        })),
        !old(state).workers.contains_key(product_code@) && r is Ok ==> (final(state).workers.spec_get(product_code@) matches Some(w2) && w2.worker_handlers@.len() == 1
            && w2.pending@ == seq![
            (WorkerAction::SpawnRuntime { instance_id: 0, debug: false }),
            (WorkerAction::NotifyListener { status: ServerStatus::Start }),
        ] && old(state).cursor.0 < w2.port.0 && final(state).cursor == w2.port),
        old(state).workers.contains_key(product_code@) ==> final(state).ports == old(state).ports
            && final(state).cursor == old(state).cursor,
        forall|k: Seq<char>|
            k != product_code@ ==> #[trigger] final(state).workers.spec_get(k) == old(state).workers.spec_get(k) && final(state).ports.spec_get(k) == old(state).ports.spec_get(k),
    {
    start_pro_runtime(state, product_code)
}

/// Stop the most recently started production instance of the tenant, if any,
/// queueing its termination signal (and, when it was the last consumer, the
/// `Wait` notification); a tenant without a worker, or without a running
/// instance, is left as it is.
pub fn stop_pro_runtime(state: &mut GatewayState, product_code: &str) -> (r: Res<String>)
    requires
        old(state).wf(),
    ensures
        final(state).wf(),
        r.code == 0,
        r.data@ == "停止成功"@,
        !old(state).workers.contains_key(product_code@) ==> *final(state) == *old(state),
        old(state).workers.spec_get(product_code@) matches Some(w) ==> (final(state).workers.spec_get(product_code@) matches Some(w2) && (w.worker_handlers@.len() > 0
            ==> w2.worker_handlers@ == w.worker_handlers@.drop_last()) && (w.worker_handlers@.len()
            == 0 ==> w2 == w) && (w.worker_handlers@.len() == 1 && w.watch_tx is None
            ==> w2.listener is Rejecting && w2.pending@ == w.pending@.push(
            (WorkerAction::SignalInstanceStop {
                instance_id: w.worker_handlers@.last().instance_id,
            }),
        ).push((WorkerAction::NotifyListener { status: ServerStatus::Wait }))) && (
        w.worker_handlers@.len() > 0 && !(w.worker_handlers@.len() == 1 && w.watch_tx is None)
            ==> w2.pending@ == w.pending@.push(
            (WorkerAction::SignalInstanceStop {
                instance_id: w.worker_handlers@.last().instance_id,
            }),
        ) && w2.listener == w.listener)),
        forall|k: Seq<char>|
            k != product_code@ ==> #[trigger] final(state).workers.spec_get(k) == old(state).workers.spec_get(k),
        final(state).ports == old(state).ports,
        final(state).cursor == old(state).cursor,
    {
    let id = ScriptWorkerId(String::from_str(product_code));
    match state.workers.remove(&id) {
        Some(mut w) => {
            let ghost w0 = w;
            w.stop_runtime();
            let ghost w1 = w;
            state.workers.insert(id, w);
            proof {
                GatewayState::lemma_wf_after_reinsert(*old(state), *state, product_code@, w0, w1);
            }
        },
        None => {},
    }
    Res { code: 0, data: String::from_str("停止成功") }
}

/// Destroy the tenant's worker entirely: its port-table entry is removed
/// first (so the router stops sending traffic to a port whose listener is
/// about to die), then every runtime is stopped and the listener loop told to
/// exit. The torn-down worker is handed back carrying exactly the owed
/// teardown actions — the watch cancellation, one stop signal per previously
/// running instance in reverse start order, the due `Wait`, and the `Exit`
/// notification last — for the caller to perform; a tenant with no worker is
/// reported as already ended.
pub fn exit(state: &mut GatewayState, product_code: &str) -> (r: (
    Res<String>,
    Option<ScriptWorkerThread>,
))
    requires
        old(state).wf(),
    ensures
        final(state).wf(),
        r.0.code == 0,
        !final(state).workers.contains_key(product_code@),
        !final(state).ports.contains_key(product_code@),
        old(state).workers.spec_get(product_code@) matches Some(w0) ==> {
            &&& r.0.data@ == "End all processes"@
            &&& (r.1 matches Some(w) && w.listener is Terminated && w.id@ == product_code@
                && w.worker_handlers@.len() == 0 && w.watch_tx is None && w.port == w0.port
                && w.pending@ == w0.pending@ + stop_all_actions(
                w0.worker_handlers@,
                w0.watch_tx is Some,
            ) + seq![(WorkerAction::NotifyListener { status: ServerStatus::Exit })])
        },
        !old(state).workers.contains_key(product_code@) ==> r.0.data@ == "The process has ended "@
            && r.1 is None && *final(state) == *old(state),
        forall|k: Seq<char>|
            k != product_code@ ==> #[trigger] final(state).workers.spec_get(k) == old(state).workers.spec_get(k) && final(state).ports.spec_get(k) == old(state).ports.spec_get(k),
        final(state).cursor == old(state).cursor,
    {
    let id = ScriptWorkerId(String::from_str(product_code));
    match state.workers.remove(&id) {
        Some(mut w) => {
            state.ports.remove(&id);
            w.shutdown();
            proof {
                GatewayState::lemma_wf_after_exit(*old(state), *state, product_code@);
            }
            (Res { code: 0, data: String::from_str("End all processes") }, Some(w))
        },
        None => {
            proof {
                if state.ports.contains_key(product_code@) {
                    assert(state.workers.contains_key(product_code@));
                }
            }
            (Res { code: 0, data: String::from_str("The process has ended ") }, None)
        },
    }
}

} // verus!
