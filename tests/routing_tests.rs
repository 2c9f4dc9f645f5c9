use v9_worker::component::{call_color, classify_status, HttpReply};
use v9_worker::error::{ExitCode, WorkerError, WorkerErrorKind};
use v9_worker::model::StatusColor;
use v9_worker::router::{path_components, route, HttpMethod, MetaAction, Route};

#[test]
fn unknown_path_is_404_with_fixed_body() {
    let e = route(&HttpMethod::Get, "/nonsense").err().unwrap();
    assert_eq!(e.http_status(), 404);
    assert_eq!(e.http_body(), "v9: worker 404");
    match e.kind {
        WorkerErrorKind::PathNotFound(p) => assert_eq!(p, "nonsense"),
        _ => panic!("wrong error"),
    }
}

#[test]
fn wrong_verb_on_meta_is_405_empty() {
    let e = route(&HttpMethod::Put, "/meta/status").err().unwrap();
    assert!(matches!(e.kind, WorkerErrorKind::WrongMethod));
    assert_eq!(e.http_status(), 405);
    assert_eq!(e.http_body(), "");
}

#[test]
fn meta_routes() {
    assert!(matches!(route(&HttpMethod::Post, "/meta/activate"), Ok(Route::Meta(MetaAction::Activate))));
    assert!(matches!(route(&HttpMethod::Post, "/meta/deactivate"), Ok(Route::Meta(MetaAction::Deactivate))));
    assert!(matches!(route(&HttpMethod::Get, "/meta/status"), Ok(Route::Meta(MetaAction::Status))));
    assert!(matches!(route(&HttpMethod::Get, "/meta/logs"), Ok(Route::Meta(MetaAction::Logs))));
    assert!(matches!(
        route(&HttpMethod::Get, "/meta/activate").err().unwrap().kind,
        WorkerErrorKind::WrongMethod
    ));
}

#[test]
fn unknown_meta_action_names_it() {
    let e = route(&HttpMethod::Get, "/meta/reboot").err().unwrap();
    match e.kind {
        WorkerErrorKind::PathNotFound(p) => assert_eq!(p, "meta/reboot"),
        _ => panic!("wrong error"),
    }
}

#[test]
fn serverless_route_splits_path() {
    match route(&HttpMethod::Get, "/sl/u/r/echo/a/b").ok().unwrap() {
        Route::Serverless { path, method, rest } => {
            assert_eq!(path.user, "u");
            assert_eq!(path.repo, "r");
            assert_eq!(method, "echo");
            assert_eq!(rest, vec!["a".to_string(), "b".to_string()]);
        }
        _ => panic!("expected a component route"),
    }
    match route(&HttpMethod::Post, "/sl/u/r/echo").ok().unwrap() {
        Route::Serverless { rest, .. } => assert!(rest.is_empty()),
        _ => panic!("expected a component route"),
    }
}

#[test]
fn short_serverless_path_is_not_found() {
    let e = route(&HttpMethod::Get, "/sl/u/r").err().unwrap();
    match e.kind {
        WorkerErrorKind::PathNotFound(p) => assert_eq!(p, "sl/u/r"),
        _ => panic!("wrong error"),
    }
}

#[test]
fn path_segments_drop_leading_piece() {
    assert_eq!(path_components("/a//b/"), vec!["a", "", "b", ""]);
    assert_eq!(path_components("/"), vec![""]);
    assert!(path_components("").is_empty());
}

#[test]
fn routing_colour() {
    let ok = |s: u16| -> Result<HttpReply, WorkerError> { Ok(HttpReply { status: s, body: String::new() }) };
    assert_eq!(call_color(&ok(200)), StatusColor::Green);
    assert_eq!(call_color(&ok(302)), StatusColor::Green);
    assert_eq!(call_color(&ok(404)), StatusColor::Orange);
    assert_eq!(call_color(&ok(500)), StatusColor::Red);
    assert_eq!(call_color(&ok(543)), StatusColor::Red);
    let failed: Result<HttpReply, WorkerError> = Err(WorkerError::new(WorkerErrorKind::PipeDisconnected));
    assert_eq!(call_color(&failed), StatusColor::Red);
    assert_eq!(classify_status(101), StatusColor::Orange);
}

#[test]
fn error_messages_and_statuses() {
    let e = WorkerError::new(WorkerErrorKind::SubprocessTerminated(ExitCode::Exited(3)));
    assert_eq!(e.message(), "WorkerError, caused by subprocess terminating, with code Exited(3)");
    assert_eq!(e.http_status(), 543);
    assert_eq!(e.http_body(), e.message());
    let e = WorkerError::new(WorkerErrorKind::SubprocessTerminated(ExitCode::Other(-12)));
    assert_eq!(e.message(), "WorkerError, caused by subprocess terminating, with code Other(-12)");
    let e = WorkerError::new(WorkerErrorKind::ContainerCli(
        ExitCode::Signaled(9),
        "out".to_string(),
        "err".to_string(),
    ));
    assert_eq!(
        e.message(),
        "WorkerError, caused by internal container error: exit_status = Signaled(9), output = (out, err)"
    );
    let e = WorkerError::new(WorkerErrorKind::UnsupportedPlatform("must be linux!".to_string()));
    assert_eq!(e.message(), "WorkerError, unsupported platform: must be linux!");
    let e = WorkerError::new(WorkerErrorKind::PipeDisconnected);
    assert_eq!(e.message(), "WorkerError, internal pipe disconnected");
}

#[test]
fn method_text() {
    assert_eq!(HttpMethod::Get.as_text(), "GET");
    assert_eq!(HttpMethod::Other("BREW".to_string()).as_text(), "BREW");
}
