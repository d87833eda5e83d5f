use task_cli::command::{ExecOptions, StartOptions, TaskCommand};
use task_cli::dispatch::{Action, Dispatcher, Event, Step};
use task_cli::error::TaskError;
use task_cli::reply::{Line, Payload, Reply};
use task_cli::request::Request;

fn opts(name: &str, config: Option<&str>, password: bool) -> StartOptions {
    StartOptions {
        format: "toml".to_string(),
        name: name.to_string(),
        config: config.map(|s| s.to_string()),
        password,
        store_password: true,
    }
}

fn ok_reply(message: &str) -> Reply {
    Reply { success: true, message: message.to_string(), data: Payload::Absent }
}

fn run(d: Dispatcher, e: Event) -> (Dispatcher, Step) {
    assert!(d.expects_event(&e));
    d.step(e)
}

fn sent(step: &Step) -> &Request {
    match &step.action {
        Action::Send(q) => q,
        _ => panic!("expected a request"),
    }
}

#[test]
fn restart_stops_pauses_then_starts() {
    let (d, s) = Dispatcher::begin(TaskCommand::Restart { options: opts("x", None, false) });
    match sent(&s) {
        Request::Stop(p) => assert_eq!(p.name, "x"),
        _ => panic!("first request must be the stop"),
    }
    let (d, s) = run(d, Event::Replied(ok_reply("stopped")));
    assert!(matches!(s.action, Action::Pause(1)));
    assert!(matches!(&s.output[..], [Line::Stdout(m)] if m == "stopped"));
    assert!(!d.expects_event(&Event::Replied(ok_reply("early"))));
    let (d, s) = run(d, Event::Paused);
    match sent(&s) {
        Request::Start(p) => {
            assert_eq!(p.name, "x");
            assert_eq!(p.format, "toml");
            assert!(p.config.is_none());
            assert!(p.password.is_none());
            assert!(p.store_password);
        },
        _ => panic!("second request must be the start"),
    }
    let (_, s) = run(d, Event::Replied(ok_reply("started")));
    assert!(matches!(s.action, Action::Finish(Ok(()))));
}

#[test]
fn restart_goes_on_after_rejected_stop() {
    let (d, _) = Dispatcher::begin(TaskCommand::Restart { options: opts("x", None, false) });
    let rejected = Reply { success: false, message: "not running".to_string(), data: Payload::Absent };
    let (_, s) = run(d, Event::Replied(rejected));
    assert!(matches!(&s.output[..], [Line::Stderr(m)] if m == "not running"));
    assert!(matches!(s.action, Action::Pause(1)));
}

#[test]
fn restart_aborts_when_stop_cannot_be_sent() {
    let (d, _) = Dispatcher::begin(TaskCommand::Restart { options: opts("x", None, false) });
    let (_, s) = run(d, Event::SendFailed("refused".to_string()));
    assert!(matches!(s.action, Action::Finish(Err(TaskError::Transport(ref m))) if m == "refused"));
}

#[test]
fn start_with_missing_config_fails_before_any_request() {
    let (d, s) = Dispatcher::begin(TaskCommand::Start { options: opts("x", Some("/no/such/file"), true) });
    assert!(matches!(&s.action, Action::ReadFile(p) if p == "/no/such/file"));
    let (_, s) = run(d, Event::FileFailed("not found".to_string()));
    assert!(matches!(s.action, Action::Finish(Err(TaskError::Io(ref m))) if m == "not found"));
}

#[test]
fn start_reads_config_then_prompts_then_sends() {
    let (d, _) = Dispatcher::begin(TaskCommand::Start { options: opts("x", Some("c.toml"), true) });
    let (d, s) = run(d, Event::FileRead("port = 1".to_string()));
    assert!(matches!(s.action, Action::PromptPassword));
    let (_, s) = run(d, Event::PasswordEntered("pw".to_string()));
    match sent(&s) {
        Request::Start(p) => {
            assert_eq!(p.config.as_deref(), Some("port = 1"));
            assert_eq!(p.password.as_deref(), Some("pw"));
        },
        _ => panic!("expected a start"),
    }
}

#[test]
fn start_without_password_never_prompts() {
    let (_, s) = Dispatcher::begin(TaskCommand::Start { options: opts("x", None, false) });
    assert!(matches!(sent(&s), Request::Start(_)));
}

#[test]
fn password_prompt_failure_is_input_error() {
    let (d, s) = Dispatcher::begin(TaskCommand::SetPassword { name: "x".to_string(), store: false });
    assert!(matches!(s.action, Action::PromptPassword));
    let (_, s) = run(d, Event::PasswordFailed("no tty".to_string()));
    assert!(matches!(s.action, Action::Finish(Err(TaskError::Input(_)))));
}

#[test]
fn set_password_sends_secret() {
    let (d, _) = Dispatcher::begin(TaskCommand::SetPassword { name: "x".to_string(), store: true });
    let (_, s) = run(d, Event::PasswordEntered("s3".to_string()));
    match sent(&s) {
        Request::SetPassword(p) => {
            assert_eq!(p.name, "x");
            assert_eq!(p.password, "s3");
            assert!(p.store);
        },
        _ => panic!("expected a password change"),
    }
}

#[test]
fn exec_with_bad_params_fails_without_prompt() {
    let c = TaskCommand::Exec {
        options: ExecOptions {
            name: "x".to_string(),
            api: "run".to_string(),
            param: vec!["a=b=c".to_string()],
            password: true,
        },
    };
    let (_, s) = Dispatcher::begin(c);
    assert!(s.output.is_empty());
    assert!(matches!(s.action, Action::Finish(Err(TaskError::Protocol(_)))));
}

#[test]
fn exec_password_overrides_param() {
    let c = TaskCommand::Exec {
        options: ExecOptions {
            name: "web".to_string(),
            api: "reload".to_string(),
            param: vec!["password=mine".to_string(), "".to_string(), "k=v".to_string()],
            password: true,
        },
    };
    let (d, s) = Dispatcher::begin(c);
    assert!(matches!(s.action, Action::PromptPassword));
    let (d, s) = run(d, Event::PasswordEntered("secret".to_string()));
    let q = sent(&s);
    assert_eq!(q.url(&"http://h".to_string()), "http://h/task/web/reload");
    match q {
        Request::Exec { body, .. } => {
            assert_eq!(
                body.entries,
                vec![
                    ("password".to_string(), "secret".to_string()),
                    ("k".to_string(), "v".to_string())
                ]
            );
        },
        _ => panic!("expected an exec"),
    }
    let (_, s) = run(d, Event::Replied(ok_reply("ok")));
    assert!(matches!(&s.output[..], [Line::Stdout(m)] if m.is_empty()));
    assert!(matches!(s.action, Action::Finish(Ok(()))));
}

#[test]
fn exec_shows_rendered_view() {
    let c = TaskCommand::Exec {
        options: ExecOptions { name: "x".to_string(), api: "a".to_string(), param: vec![], password: false },
    };
    let (d, _) = Dispatcher::begin(c);
    let r = Reply { success: true, message: "ok".to_string(), data: Payload::Text("line 1".to_string()) };
    let (_, s) = run(d, Event::Replied(r));
    assert!(matches!(&s.output[..], [Line::Stdout(m)] if m == "line 1"));
}

#[test]
fn list_decode_failure_and_rejection() {
    let (d, s) = Dispatcher::begin(TaskCommand::List);
    assert!(sent(&s).is_get());
    let (_, s) = run(d, Event::DecodeFailed("bad json".to_string()));
    assert!(matches!(s.action, Action::Finish(Err(TaskError::Decode(_)))));
    let (d, _) = Dispatcher::begin(TaskCommand::List);
    let r = Reply { success: false, message: "nope".to_string(), data: Payload::Absent };
    let (_, s) = run(d, Event::Replied(r));
    assert!(matches!(s.action, Action::Finish(Err(TaskError::Api(ref m))) if m == "nope"));
}

#[test]
fn rejected_stop_ends_normally() {
    let (d, _) = Dispatcher::begin(TaskCommand::Stop { name: "x".to_string() });
    let r = Reply { success: false, message: "no such task".to_string(), data: Payload::Absent };
    let (_, s) = run(d, Event::Replied(r));
    assert!(matches!(&s.output[..], [Line::Stderr(m)] if m == "no such task"));
    assert!(matches!(s.action, Action::Finish(Ok(()))));
}

#[test]
fn request_urls() {
    let server = "http://localhost:9".to_string();
    let (_, s) = Dispatcher::begin(TaskCommand::List);
    assert_eq!(sent(&s).url(&server), "http://localhost:9/task/list");
    let (_, s) = Dispatcher::begin(TaskCommand::Stop { name: "x".to_string() });
    assert_eq!(sent(&s).url(&server), "http://localhost:9/task/stop");
    assert!(!sent(&s).is_get());
    let (_, s) = Dispatcher::begin(TaskCommand::Start { options: opts("x", None, false) });
    assert_eq!(sent(&s).path(), "/task/start");
    let c = TaskCommand::ConfigTemplate { name: "x".to_string(), format: "toml".to_string() };
    let (_, s) = Dispatcher::begin(c);
    assert_eq!(sent(&s).path(), "/task/config-template");
    let (d, _) = Dispatcher::begin(TaskCommand::SetPassword { name: "x".to_string(), store: false });
    let (_, s) = run(d, Event::PasswordEntered("p".to_string()));
    assert_eq!(sent(&s).path(), "/task/set-password");
}
