use cassie_cool::worker_util::assign_port;
use cassie_cool::worker_util::connection_disposition;
use cassie_cool::worker_util::listener_step;
use cassie_cool::worker_util::rejection_payload;
use cassie_cool::worker_util::ConnDisposition;
use cassie_cool::worker_util::ListenerState;
use cassie_cool::worker_util::Project;
use cassie_cool::worker_util::ScriptWorkerThread;
use cassie_cool::worker_util::ServerStatus;
use cassie_cool::worker_util::WorkerAction;
use cassie_cool::worker_util::WorkerPort;

fn test_worker(name: &str) -> ScriptWorkerThread {
    let project = Project {
        name: name.to_string(),
        path: format!("code/{}/app.ts", name),
    };
    ScriptWorkerThread::new(project, WorkerPort(4000))
}

#[test]
fn worker_port_next_increments_and_saturates() {
    assert_eq!(WorkerPort(3000).next(), Some(WorkerPort(3001)));
    assert_eq!(WorkerPort(u16::MAX).next(), None);
}

#[test]
fn new_worker_starts_rejecting() {
    let w = test_worker("app1");
    assert_eq!(w.listener, ListenerState::Rejecting);
    assert!(w.worker_handlers.is_empty());
    assert!(w.watch_tx.is_none());
    assert!(!w.open_debug_server);
    assert_eq!(w.id.0, "app1");
    assert_eq!(w.port, WorkerPort(4000));
}

#[test]
fn watch_start_is_idempotent() {
    let mut w = test_worker("app1");
    w.start_watch_runtime();
    assert!(w.watch_tx.is_some());
    assert_eq!(w.listener, ListenerState::Accepting);
    let first_actions = w.take_actions();
    assert_eq!(
        first_actions,
        vec![
            WorkerAction::SpawnWatchRuntime,
            WorkerAction::NotifyListener { status: ServerStatus::Start },
        ]
    );
    // a second start without an intervening stop changes nothing
    w.start_watch_runtime();
    assert!(w.watch_tx.is_some());
    assert!(w.take_actions().is_empty());
}

#[test]
fn production_stops_are_lifo() {
    let mut w = test_worker("app1");
    w.start_runtime();
    w.start_runtime();
    w.start_runtime();
    assert_eq!(w.worker_handlers.len(), 3);
    let _ = w.take_actions();

    assert!(w.stop_runtime());
    assert!(w.stop_runtime());
    assert!(w.stop_runtime());
    // a fourth stop has nothing to stop
    assert!(!w.stop_runtime());

    let signalled: Vec<usize> = w
        .take_actions()
        .into_iter()
        .filter_map(|a| match a {
            WorkerAction::SignalInstanceStop { instance_id } => Some(instance_id),
            _ => None,
        })
        .collect();
    assert_eq!(signalled, vec![2, 1, 0]);
}

#[test]
fn listener_accepts_iff_something_consumes_connections() {
    let mut w = test_worker("app1");
    assert_eq!(w.listener, ListenerState::Rejecting);
    w.start_watch_runtime();
    assert_eq!(w.listener, ListenerState::Accepting);
    w.stop_watch_runtime();
    assert_eq!(w.listener, ListenerState::Rejecting);
    w.start_runtime();
    assert_eq!(w.listener, ListenerState::Accepting);
    w.start_watch_runtime();
    // stopping the watch runtime keeps accepting while an instance runs
    w.stop_watch_runtime();
    assert_eq!(w.listener, ListenerState::Accepting);
    assert!(w.stop_runtime());
    assert_eq!(w.listener, ListenerState::Rejecting);
    w.shutdown();
    assert_eq!(w.listener, ListenerState::Terminated);
    let actions = w.take_actions();
    assert_eq!(
        actions.last(),
        Some(&WorkerAction::NotifyListener { status: ServerStatus::Exit })
    );
}

#[test]
fn debugger_requires_no_running_instance() {
    let mut w = test_worker("app1");
    w.start_runtime();
    let _ = w.take_actions();
    // with an instance running the call changes nothing, not even the flag
    w.start_debugger_runtime();
    assert!(!w.open_debug_server);
    assert_eq!(w.worker_handlers.len(), 1);
    assert!(w.take_actions().is_empty());

    let mut idle = test_worker("app2");
    idle.start_debugger_runtime();
    assert!(idle.open_debug_server);
    assert_eq!(idle.worker_handlers.len(), 1);
    let actions = idle.take_actions();
    assert_eq!(
        actions,
        vec![
            WorkerAction::SpawnRuntime { instance_id: 0, debug: true },
            WorkerAction::NotifyListener { status: ServerStatus::Start },
        ]
    );
}

#[test]
fn stop_all_clears_everything() {
    let mut w = test_worker("app1");
    w.start_watch_runtime();
    w.start_runtime();
    w.start_runtime();
    let _ = w.take_actions();
    w.stop_all_runtime();
    assert!(w.worker_handlers.is_empty());
    assert!(w.watch_tx.is_none());
    assert_eq!(w.listener, ListenerState::Rejecting);
    // the owed teardown signals, in order: watch cancellation, instance
    // stops newest-first, and one final Wait
    assert_eq!(
        w.take_actions(),
        vec![
            WorkerAction::SignalWatchStop,
            WorkerAction::SignalInstanceStop { instance_id: 1 },
            WorkerAction::SignalInstanceStop { instance_id: 0 },
            WorkerAction::NotifyListener { status: ServerStatus::Wait },
        ]
    );
}

#[test]
fn stop_all_on_idle_worker_queues_nothing() {
    let mut w = test_worker("app1");
    w.stop_all_runtime();
    assert!(w.take_actions().is_empty());
    assert_eq!(w.listener, ListenerState::Rejecting);
}

#[test]
fn listener_step_follows_control_messages() {
    assert_eq!(
        listener_step(ListenerState::Rejecting, ServerStatus::Start),
        ListenerState::Accepting
    );
    assert_eq!(
        listener_step(ListenerState::Accepting, ServerStatus::Wait),
        ListenerState::Rejecting
    );
    assert_eq!(
        listener_step(ListenerState::Accepting, ServerStatus::Exit),
        ListenerState::Terminated
    );
    assert_eq!(
        connection_disposition(ListenerState::Accepting),
        ConnDisposition::Handoff
    );
    assert_eq!(
        connection_disposition(ListenerState::Rejecting),
        ConnDisposition::Reject
    );
}

#[test]
fn rejection_payload_is_the_stop_notice() {
    assert_eq!(rejection_payload(), "停止服务".as_bytes().to_vec());
}

#[test]
fn assign_port_moves_cursor_and_reports_exhaustion() {
    let mut cursor = WorkerPort(3000);
    let p1 = assign_port(&mut cursor).expect("a free port above 3000");
    assert!(p1.0 > 3000);
    assert_eq!(cursor, p1);
    let p2 = assign_port(&mut cursor).expect("a second free port");
    assert!(p2.0 > p1.0);

    let mut full = WorkerPort(u16::MAX);
    assert!(assign_port(&mut full).is_err());
    assert_eq!(full, WorkerPort(u16::MAX));
}
