use v9_worker::error::{WorkerError, WorkerErrorKind};
use v9_worker::isolation::{
    check_running, controller_setup, BootPlan, ContainerizedScriptController, ControllerSetup,
    IsolatedProcessWrapper, IsolationController, PythonUnsafeController, EXPIRY_DURATION_MS,
};
use v9_worker::error::ExitCode;
use v9_worker::manager::ComponentManager;
use v9_worker::model::{
    ActivateRequest, ActivationStatus, ComponentId, ComponentPath, DeactivateRequest, DeactivationStatus,
    ExecutionMethod,
};

fn id(user: &str, repo: &str) -> ComponentId {
    ComponentId { path: ComponentPath::new(user.to_string(), repo.to_string()), hash: "h".to_string() }
}

fn activate_req(user: &str, repo: &str) -> ActivateRequest {
    ActivateRequest {
        id: id(user, repo),
        executable_file: "/t/echo.py".to_string(),
        execution_method: ExecutionMethod::PythonUnsafe,
    }
}

#[test]
fn activate_then_already_running() {
    let mut m: ComponentManager<u32> = ComponentManager::new();
    let r = m.activate(Ok(activate_req("u", "r")), Ok(1));
    assert_eq!(r.result, ActivationStatus::ActivationSuccessful);
    assert_eq!(r.dbg_message, "successfully activated");
    let check = m.activation_check(&Ok(activate_req("u", "r"))).unwrap();
    assert_eq!(check.result, ActivationStatus::AlreadyRunning);
    let r = m.activate(Ok(activate_req("u", "r")), Ok(2));
    assert_eq!(r.result, ActivationStatus::AlreadyRunning);
    assert_eq!(m.len(), 1);
    let p = ComponentPath::new("u".to_string(), "r".to_string());
    assert_eq!(m.lookup_component(&p), Some(&1));
}

#[test]
fn activate_invalid_and_failed() {
    let mut m: ComponentManager<u32> = ComponentManager::new();
    let r = m.activate(Err("expected value".to_string()), Ok(1));
    assert_eq!(r.result, ActivationStatus::InvalidRequest);
    assert_eq!(r.dbg_message, "expected value");
    let e = WorkerError::new(WorkerErrorKind::UnsupportedPlatform("must be linux!".to_string()));
    let r = m.activate(Ok(activate_req("u", "r")), Err(e));
    assert_eq!(r.result, ActivationStatus::FailedToStart);
    assert_eq!(r.dbg_message, "WorkerError, unsupported platform: must be linux!");
    assert_eq!(m.len(), 0);
    assert!(m.activation_check(&Ok(activate_req("u", "r"))).is_none());
}

#[test]
fn deactivate_twice() {
    let mut m: ComponentManager<u32> = ComponentManager::new();
    m.activate(Ok(activate_req("u", "r")), Ok(1));
    m.activate(Ok(activate_req("u", "s")), Ok(2));
    let r = m.deactivate(Ok(DeactivateRequest { id: id("u", "r") }));
    assert_eq!(r.result, DeactivationStatus::DeactivationSuccessful);
    let r = m.deactivate(Ok(DeactivateRequest { id: id("u", "r") }));
    assert_eq!(r.result, DeactivationStatus::ComponentNotFound);
    assert_eq!(m.len(), 1);
    let (p, e) = m.entry(0);
    assert_eq!(p.repo, "s");
    assert_eq!(*e, 2);
    let r = m.deactivate(Err("bad".to_string()));
    assert_eq!(r.result, DeactivationStatus::InvalidRequest);
}

fn python_wrapper(now: u64) -> IsolatedProcessWrapper<u32> {
    let c = PythonUnsafeController::new("/t/echo.py".to_string()).ok().unwrap();
    IsolatedProcessWrapper::new(IsolationController::PythonUnsafe(c), now)
}

#[test]
fn cold_start_then_warm_reuse() {
    let mut w = python_wrapper(0);
    assert!(w.begin_query(1).is_none());
    let out = w.finish_query(7, Ok("pong".to_string()));
    assert_eq!(out.unwrap(), "pong");
    assert!(w.is_booted());
    assert_eq!(w.begin_query(2), Some(7));
}

#[test]
fn crash_recovery() {
    let mut w = python_wrapper(0);
    assert!(w.begin_query(1).is_none());
    let _ = w.finish_query(7, Ok("pong".to_string()));
    let h = w.begin_query(2).unwrap();
    let failure = check_running(Some(ExitCode::Exited(1))).map(|_| String::new());
    let out = w.finish_query(h, failure);
    assert!(matches!(out.unwrap_err().kind, WorkerErrorKind::SubprocessTerminated(ExitCode::Exited(1))));
    assert!(!w.is_booted());
    assert!(w.begin_query(3).is_none());
    let _ = w.finish_query(8, Ok("pong".to_string()));
    assert_eq!(w.begin_query(4), Some(8));
}

#[test]
fn idle_eviction() {
    let mut w = python_wrapper(0);
    assert!(w.begin_query(1_000).is_none());
    let _ = w.finish_query(7, Ok(String::new()));
    w.heartbeat(1_000 + EXPIRY_DURATION_MS);
    assert!(w.is_booted());
    w.heartbeat(1_001 + EXPIRY_DURATION_MS);
    assert!(!w.is_booted());
    assert!(w.begin_query(2_000 + EXPIRY_DURATION_MS).is_none());
}

#[test]
fn controllers_and_boot_plans() {
    match controller_setup(&activate_req("u", "r"), false) {
        Ok(ControllerSetup::Ready(c)) => match c.boot_plan("/tmp/x/IN", "/tmp/x/OUT") {
            BootPlan::Spawn(argv) => assert_eq!(argv, vec!["python3", "-u", "/t/echo.py", "/tmp/x/IN", "/tmp/x/OUT"]),
            _ => panic!("expected a spawn"),
        },
        _ => panic!("expected a ready controller"),
    }
    let mut req = activate_req("u", "r");
    req.execution_method = ExecutionMethod::DockerArchive;
    let e = controller_setup(&req, false).err().unwrap();
    assert!(matches!(e.kind, WorkerErrorKind::UnsupportedPlatform(_)));
    match controller_setup(&req, true) {
        Ok(ControllerSetup::LoadImage(args)) => assert_eq!(args, vec!["load", "-q", "-i", "/t/echo.py"]),
        _ => panic!("expected an image load"),
    }
    assert!(ContainerizedScriptController::new("/code".to_string(), false).is_err());
    let c = ContainerizedScriptController::new("/code".to_string(), true).ok().unwrap();
    match IsolationController::ContainerizedScript(c).boot_plan("i", "o") {
        BootPlan::PooledScript { source_dir, target_dir, entry } => {
            assert_eq!(source_dir, "/code");
            assert_eq!(target_dir, "/home/sl");
            assert_eq!(entry, vec!["sh", "/home/sl/start.sh", "i", "o"]);
        }
        _ => panic!("expected a pooled script"),
    }
}
