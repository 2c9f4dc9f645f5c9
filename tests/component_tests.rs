use v9_worker::component::{
    component_request, network_error_totals, request_line, response_text, ComponentHandle, NetworkCounters,
};
use v9_worker::docker::{
    container_name_for, copy_in_args, exec_args, load_docker_image, run_args, CliOutput,
};
use v9_worker::error::{ExitCode, WorkerErrorKind};
use v9_worker::isolation::{BootPlan, DockerArchiveController, IsolatedProcessWrapper, IsolationController, PythonUnsafeController};
use v9_worker::logs::{GenerationCounter, LogPolicy};
use v9_worker::model::{ComponentId, ComponentPath, ComponentResponse, StatusColor};
use v9_worker::pipe::{frame_message, open_step, open_timeout, OpenStep};
use v9_worker::text::push_decimal;

fn handle() -> ComponentHandle<u32, String> {
    let c = PythonUnsafeController::new("/t/echo.py".to_string()).ok().unwrap();
    let w = IsolatedProcessWrapper::new(IsolationController::PythonUnsafe(c), 0);
    let id = ComponentId { path: ComponentPath::new("u".to_string(), "r".to_string()), hash: "h".to_string() };
    ComponentHandle::new(id, w, 0)
}

fn response(body: &str, code: u32, err: Option<&str>) -> ComponentResponse {
    ComponentResponse {
        response_body: body.to_string(),
        http_response_code: code,
        error_message: err.map(|s| s.to_string()),
    }
}

#[test]
fn request_fields() {
    let r = component_request("echo", "GET", &vec!["a".to_string(), "b".to_string()], "q=1".to_string(), "x".to_string());
    assert_eq!(r.called_function, "echo");
    assert_eq!(r.http_method, "GET");
    assert_eq!(r.path, "a/b");
    assert_eq!(r.request_arguments, "q=1");
    assert_eq!(r.request_body, "x");
}

#[test]
fn request_line_is_percent_encoded_without_newline() {
    let line = request_line("{\"a\": 1}\n");
    assert_eq!(line, b"%7B%22a%22%3A%201%7D%0A".to_vec());
    assert!(frame_message(&line).is_ok());
}

#[test]
fn response_text_is_percent_decoded() {
    assert_eq!(response_text("%7B%22a%22%3A1%7D%0A").unwrap(), "{\"a\":1}\n");
    let e = response_text("%FF").unwrap_err();
    assert!(matches!(e.kind, WorkerErrorKind::InvalidUtf8));
}

#[test]
fn finish_call_records_stats() {
    let mut h = handle();
    let reply = h.finish_call(response("hello", 200, None), 1_000, 1_250).unwrap();
    assert_eq!(reply.status, 200);
    assert_eq!(reply.body, "hello");
    let st = h.get_component_status(1_300);
    assert_eq!(st.component_stats.hits, 1);
    assert_eq!(st.component_stats.total_ms_latency, 250);
    assert_eq!(st.component_stats.total_response_bytes, 5);
    assert_eq!(st.id.path.user, "u");
}

#[test]
fn finish_call_error_message_replaces_body() {
    let mut h = handle();
    let reply = h.finish_call(response("hello", 500, Some("boom")), 0, 1).unwrap();
    assert_eq!(reply.status, 500);
    assert_eq!(reply.body, "boom");
    let reply = h.finish_call(response("hello", 201, Some("")), 0, 1).unwrap();
    assert_eq!(reply.body, "hello");
    assert_eq!(h.get_component_status(1).component_stats.hits, 1);
}

#[test]
fn finish_call_rejects_bad_status() {
    let mut h = handle();
    let e = h.finish_call(response("x", 70_000, None), 0, 1).unwrap_err();
    assert!(matches!(e.kind, WorkerErrorKind::IntegerConversion));
}

#[test]
fn handle_colour() {
    let mut h = handle();
    assert_eq!(h.color(), None);
    h.set_color(StatusColor::Orange);
    assert_eq!(h.color(), Some(StatusColor::Orange));
}

#[test]
fn log_generations_advance() {
    let mut counter = GenerationCounter::new();
    let mut h = handle();
    let before = h.log_tracker().generation();
    let g1 = counter.advance().unwrap() + 1;
    let p1 = h.create_log_policy("first".to_string(), g1);
    assert!(matches!(&*p1, LogPolicy::ToFile(f) if f == "first"));
    let s1 = h.log_tracker().generation();
    let g2 = counter.advance().unwrap() + 1;
    h.create_log_policy("second".to_string(), g2);
    let s2 = h.log_tracker().generation();
    assert!(s1 > before);
    assert!(s2 > s1);
    assert!(matches!(&**h.log_tracker().policy(), LogPolicy::ToFile(f) if f == "second"));
}

#[test]
fn docker_argument_lists() {
    assert_eq!(container_name_for("python:3.7-alpine", 42), "v9_python_3.7-alpine_42");
    let args = run_args("n", "/p/IN", "/p/OUT", "img", &vec!["sleep".to_string(), "9".to_string()]);
    assert_eq!(args, vec!["run", "--name", "n", "-v", "/p/IN:/p/IN", "-v", "/p/OUT:/p/OUT", "img", "sleep", "9"]);
    assert_eq!(exec_args("n", &vec!["mkdir".to_string()]), vec!["exec", "n", "mkdir"]);
    assert_eq!(copy_in_args("n", "/src", "/home/sl"), vec!["cp", "/src/.", "n:/home/sl"]);
}

#[test]
fn image_load_output() {
    let out = CliOutput { exit: ExitCode::Exited(0), stdout: "Loaded image: foo:latest\n".to_string(), stderr: String::new() };
    assert_eq!(load_docker_image(out).unwrap(), "foo:latest");
    let out = CliOutput { exit: ExitCode::Exited(0), stdout: "Loaded image ID: sha256:abc\n".to_string(), stderr: String::new() };
    assert_eq!(load_docker_image(out).unwrap(), "sha256:abc");
    let out = CliOutput { exit: ExitCode::Exited(0), stdout: "nothing".to_string(), stderr: String::new() };
    assert!(matches!(load_docker_image(out).unwrap_err().kind, WorkerErrorKind::ContainerCli(..)));
    let out = CliOutput { exit: ExitCode::Exited(1), stdout: "Loaded image: x\n".to_string(), stderr: "e".to_string() };
    assert!(matches!(load_docker_image(out).unwrap_err().kind, WorkerErrorKind::ContainerCli(ExitCode::Exited(1), ..)));
    let out = CliOutput { exit: ExitCode::Exited(0), stdout: "Loaded image: foo\n".to_string(), stderr: String::new() };
    assert_eq!(DockerArchiveController::new(true, out).ok().unwrap().docker_image_tag, "foo");
}

#[test]
fn decimal_text() {
    let mut s = String::new();
    push_decimal(&mut s, 0);
    push_decimal(&mut s, 1234567890);
    assert_eq!(s, "01234567890");
}

#[test]
fn network_totals_sum_all_interfaces() {
    let lo = NetworkCounters { tx_packets: 10, rx_packets: 30, tx_errors: 1, rx_errors: 0 };
    let eth = NetworkCounters { tx_packets: u64::MAX, rx_packets: 60, tx_errors: 2, rx_errors: 3 };
    assert_eq!(network_error_totals(&vec![lo, eth]), Some((6, 100 + u64::MAX as u128)));
    let idle = NetworkCounters { tx_packets: 0, rx_packets: 0, tx_errors: 0, rx_errors: 0 };
    assert_eq!(network_error_totals(&vec![idle]), None);
    assert_eq!(network_error_totals(&Vec::new()), None);
}

#[test]
fn pipe_opening_steps() {
    assert_eq!(open_step(false, false, 0, 10), OpenStep::TryOutput);
    assert_eq!(open_step(true, false, 0, 10), OpenStep::TryInput);
    assert_eq!(open_step(true, true, 99, 10), OpenStep::Ready);
    assert_eq!(open_step(false, false, 10, 10), OpenStep::TimedOut);
    assert_eq!(open_step(true, false, 11, 10), OpenStep::TimedOut);
    assert_eq!(open_timeout().message(), "WorkerError, fifo pipe opening operation timed out");
}

#[test]
fn random_container_names_have_the_shape() {
    let n = v9_worker::docker::container_name("python:3.7-alpine");
    assert!(n.starts_with("v9_python_3.7-alpine_"));
    let digits = &n["v9_python_3.7-alpine_".len()..];
    assert!(!digits.is_empty() && digits.chars().all(|c| c.is_ascii_digit()));
}

#[test]
fn pool_commands() {
    assert_eq!(v9_worker::docker::idle_container_command(), vec!["sleep", "1000000000"]);
    assert_eq!(v9_worker::docker::code_folder_command(), vec!["mkdir", "-p", "/home/sl"]);
}

#[test]
fn component_log_entries() {
    let h = handle();
    let ok = h.get_component_log(Ok(Some("line\n".to_string())));
    assert_eq!(ok.log, Some("line\n".to_string()));
    assert_eq!(ok.error, None);
    assert_eq!(ok.dedup_number, 0);
    let failed = h.get_component_log(Err(v9_worker::error::WorkerError::new(WorkerErrorKind::Io("gone".to_string()))));
    assert_eq!(failed.log, None);
    assert_eq!(
        failed.error,
        Some("Failure to get logs for component u/r, err WorkerError, caused by internal I/O error: gone".to_string())
    );
}

#[test]
fn image_boot_plan() {
    let out = CliOutput { exit: ExitCode::Exited(0), stdout: "Loaded image: img:1\n".to_string(), stderr: String::new() };
    let c = DockerArchiveController::new(true, out).ok().unwrap();
    match IsolationController::DockerArchive(c).boot_plan("/p/IN", "/p/OUT") {
        BootPlan::RunImage { image, args } => {
            assert_eq!(image, "img:1");
            assert_eq!(args, vec!["/p/IN", "/p/OUT"]);
        }
        _ => panic!("expected an image run"),
    }
    let out = CliOutput { exit: ExitCode::Exited(0), stdout: "Loaded image: img:1\n".to_string(), stderr: String::new() };
    assert!(matches!(
        DockerArchiveController::new(false, out).err().unwrap().kind,
        WorkerErrorKind::UnsupportedPlatform(_)
    ));
}

#[test]
fn ignore_policy_is_shared() {
    let p = LogPolicy::<String>::new_ignore_policy();
    assert!(matches!(&*p, LogPolicy::Ignore));
}
