use cassie_cool::api::runtime_controller::exit;
use cassie_cool::api::runtime_controller::get_runtime_info;
use cassie_cool::api::runtime_controller::restart_runtime;
use cassie_cool::api::runtime_controller::start_debugger_runtime;
use cassie_cool::api::runtime_controller::start_pro_runtime;
use cassie_cool::api::runtime_controller::start_runtime;
use cassie_cool::api::runtime_controller::stop_pro_runtime;
use cassie_cool::api::runtime_controller::stop_runtime;
use cassie_cool::proxy::missing_header_response;
use cassie_cool::proxy::route;
use cassie_cool::proxy::service_not_found_body;
use cassie_cool::proxy::upstream_target;
use cassie_cool::proxy::ForwardDecision;
use cassie_cool::registry::GatewayState;
use cassie_cool::worker_util::ListenerState;
use cassie_cool::worker_util::ScriptWorkerId;
use cassie_cool::worker_util::ServerStatus;
use cassie_cool::worker_util::WorkerAction;
use cassie_cool::worker_util::WorkerPort;

fn id(code: &str) -> ScriptWorkerId {
    ScriptWorkerId(code.to_string())
}

#[test]
fn concurrent_starts_get_distinct_ports() {
    let mut st = GatewayState::new();
    assert_eq!(st.cursor, WorkerPort(3000));
    start_runtime(&mut st, "alpha").expect("a free port for alpha");
    start_runtime(&mut st, "beta").expect("a free port for beta");
    start_runtime(&mut st, "gamma").expect("a free port for gamma");
    let pa = *st.ports.get(&id("alpha")).unwrap();
    let pb = *st.ports.get(&id("beta")).unwrap();
    let pc = *st.ports.get(&id("gamma")).unwrap();
    assert!(pa != pb && pb != pc && pa != pc);
    assert!(pa.0 > 3000 && pb.0 > pa.0 && pc.0 > pb.0);
}

#[test]
fn start_builds_worker_and_proxy_routes_to_it() {
    let mut st = GatewayState::new();
    let res = start_runtime(&mut st, "app1").expect("a free port");
    assert_eq!(res.code, 0);
    assert_eq!(res.data, "成功启动");
    let port = *st.ports.get(&id("app1")).unwrap();
    let w = st.workers.get(&id("app1")).unwrap();
    assert_eq!(w.project.path, "code/app1/app.ts");
    assert!(w.watch_tx.is_some());
    assert_eq!(w.listener, ListenerState::Accepting);
    // the route leaves the watch spawn and the Start notification queued for
    // the application to perform
    assert_eq!(
        w.pending,
        vec![
            WorkerAction::SpawnWatchRuntime,
            WorkerAction::NotifyListener { status: ServerStatus::Start },
        ]
    );

    // the proxy resolves the tenant header to that port and preserves the
    // request's path and query in the rewritten target
    match route(&st.ports, Some("app1")) {
        ForwardDecision::Forward { port: p } => assert_eq!(p, port),
        other => panic!("expected a forward, got {:?}", other),
    }
    let target = upstream_target(port, "/foo", Some("x=1"));
    assert_eq!(target, format!("http://127.0.0.1:{}/foo?x=1", port.0));
    assert!(target.contains("/foo?x=1"));
    let bare = upstream_target(port, "/", None);
    assert_eq!(bare, format!("http://127.0.0.1:{}/", port.0));
}

#[test]
fn proxy_rejects_missing_and_unknown_tenants() {
    let st = GatewayState::new();
    assert_eq!(route(&st.ports, None), ForwardDecision::MissingHeader);
    let miss = missing_header_response();
    assert_eq!(miss.code, 0);
    assert_eq!(miss.data, "product_code not found");
    assert_eq!(route(&st.ports, Some("ghost")), ForwardDecision::ServiceNotFound);
    assert_eq!(service_not_found_body("ghost"), "ghost service not found");
}

#[test]
fn info_reports_instance_counts() {
    let mut st = GatewayState::new();
    let absent = get_runtime_info(&st, "app1");
    assert_eq!(absent.code, 0);
    assert_eq!(absent.data.count, 0);
    assert_eq!(absent.data.code, "app1");
    assert_eq!(absent.data.description, "暂无实例");

    start_runtime(&mut st, "app1").expect("a free port");
    let watching = get_runtime_info(&st, "app1");
    // an active development runtime counts as one instance
    assert_eq!(watching.data.count, 1);
    assert_eq!(watching.data.description, "请求头上添加 product_code=app1");

    start_pro_runtime(&mut st, "app1").expect("tenant exists");
    start_pro_runtime(&mut st, "app1").expect("tenant exists");
    let running = get_runtime_info(&st, "app1");
    assert_eq!(running.data.count, 2);
}

#[test]
fn pro_stop_pops_one_instance() {
    let mut st = GatewayState::new();
    start_pro_runtime(&mut st, "app1").expect("a free port");
    start_pro_runtime(&mut st, "app1").expect("tenant exists");
    assert_eq!(st.workers.get(&id("app1")).unwrap().worker_handlers.len(), 2);
    let res = stop_pro_runtime(&mut st, "app1");
    assert_eq!(res.data, "停止成功");
    assert_eq!(st.workers.get(&id("app1")).unwrap().worker_handlers.len(), 1);
    stop_pro_runtime(&mut st, "app1");
    let w = st.workers.get(&id("app1")).unwrap();
    assert_eq!(w.worker_handlers.len(), 0);
    assert_eq!(w.listener, ListenerState::Rejecting);
    // stopping with nothing running is a tolerant no-op
    let res = stop_pro_runtime(&mut st, "app1");
    assert_eq!(res.code, 0);
}

#[test]
fn dev_stop_clears_watch_channel() {
    let mut st = GatewayState::new();
    start_runtime(&mut st, "app1").expect("a free port");
    assert!(st.workers.get(&id("app1")).unwrap().watch_tx.is_some());
    let res = stop_runtime(&mut st, "app1");
    assert_eq!(res.data, "停止成功");
    let w = st.workers.get(&id("app1")).unwrap();
    assert!(w.watch_tx.is_none());
    assert_eq!(w.listener, ListenerState::Rejecting);
}

#[test]
fn restart_keeps_exactly_one_watch_runtime() {
    let mut st = GatewayState::new();
    restart_runtime(&mut st, "app1").expect("a free port");
    restart_runtime(&mut st, "app1").expect("tenant exists");
    let w = st.workers.get(&id("app1")).unwrap();
    assert!(w.watch_tx.is_some());
    assert_eq!(w.listener, ListenerState::Accepting);
}

#[test]
fn debugger_route_starts_one_instance_only() {
    let mut st = GatewayState::new();
    start_debugger_runtime(&mut st, "app1").expect("a free port");
    {
        let w = st.workers.get(&id("app1")).unwrap();
        assert!(w.open_debug_server);
        assert_eq!(w.worker_handlers.len(), 1);
    }
    // with an instance already running nothing changes
    start_debugger_runtime(&mut st, "app1").expect("tenant exists");
    let w = st.workers.get(&id("app1")).unwrap();
    assert_eq!(w.worker_handlers.len(), 1);
}

#[test]
fn exit_tears_down_and_unroutes() {
    let mut st = GatewayState::new();
    start_runtime(&mut st, "app1").expect("a free port");
    start_pro_runtime(&mut st, "app1").expect("tenant exists");
    start_pro_runtime(&mut st, "app1").expect("tenant exists");
    assert!(st.ports.get(&id("app1")).is_some());
    assert!(st.workers.contains(&id("app1")));
    assert_eq!(st.workers.len(), 1);
    assert_eq!(st.ports.len(), 1);
    let (res, removed) = exit(&mut st, "app1");
    assert_eq!(res.code, 0);
    assert_eq!(res.data, "End all processes");
    let mut w = removed.expect("the torn-down worker is handed back");
    assert_eq!(w.listener, ListenerState::Terminated);
    assert!(w.worker_handlers.is_empty());
    assert!(w.watch_tx.is_none());
    // the handed-back worker carries the whole queue: the starts that were
    // never drained, then the teardown — watch cancellation, instance stops
    // newest-first, the Wait, and the Exit notification last
    assert_eq!(
        w.take_actions(),
        vec![
            WorkerAction::SpawnWatchRuntime,
            WorkerAction::NotifyListener { status: ServerStatus::Start },
            WorkerAction::SpawnRuntime { instance_id: 0, debug: false },
            WorkerAction::NotifyListener { status: ServerStatus::Start },
            WorkerAction::SpawnRuntime { instance_id: 1, debug: false },
            WorkerAction::SignalWatchStop,
            WorkerAction::SignalInstanceStop { instance_id: 1 },
            WorkerAction::SignalInstanceStop { instance_id: 0 },
            WorkerAction::NotifyListener { status: ServerStatus::Wait },
            WorkerAction::NotifyListener { status: ServerStatus::Exit },
        ]
    );
    // the port table no longer routes the tenant
    assert!(st.ports.get(&id("app1")).is_none());
    assert!(st.workers.get(&id("app1")).is_none());
    assert_eq!(st.workers.len(), 0);
    assert_eq!(st.ports.len(), 0);
    assert_eq!(route(&st.ports, Some("app1")), ForwardDecision::ServiceNotFound);

    let (res, removed) = exit(&mut st, "app1");
    assert_eq!(res.data, "The process has ended ");
    assert!(removed.is_none());
}
