use task_cli::command::TaskCommand;
use task_cli::error::TaskError;
use task_cli::reply::{interpret, status_tag, Line, Payload, Reply, TaskSummary};

fn reply(success: bool, message: &str, data: Payload) -> Reply {
    Reply { success, message: message.to_string(), data }
}

fn text(s: &str) -> Payload {
    Payload::Text(s.to_string())
}

fn render(lines: &[Line]) -> Vec<String> {
    lines
        .iter()
        .map(|l| match l {
            Line::Stdout(s) => format!("out:{}", s),
            Line::Stderr(s) => format!("err:{}", s),
            Line::Status { running, name } => format!("status:{}:{}", running, name),
        })
        .collect()
}

fn summary(name: &str, running: bool) -> TaskSummary {
    TaskSummary { name: name.to_string(), running }
}

#[test]
fn list_renders_one_line_per_task_in_order() {
    let r = reply(true, "ok", Payload::Tasks(vec![summary("b", true), summary("a", false), summary("c", true)]));
    let (lines, res) = interpret(&TaskCommand::List, r);
    assert!(res.is_ok());
    assert_eq!(render(&lines), vec!["status:true:b", "status:false:a", "status:true:c"]);
}

#[test]
fn list_of_no_tasks_renders_nothing() {
    let (lines, res) = interpret(&TaskCommand::List, reply(true, "ok", Payload::Tasks(vec![])));
    assert!(res.is_ok());
    assert!(lines.is_empty());
}

#[test]
fn list_rejection_is_an_api_error() {
    let (lines, res) = interpret(&TaskCommand::List, reply(false, "denied", Payload::Absent));
    assert!(lines.is_empty());
    match res {
        Err(TaskError::Api(m)) => assert_eq!(m, "denied"),
        _ => panic!("expected an api error"),
    }
}

#[test]
fn rejection_goes_to_error_stream_for_every_other_command() {
    let cmds = vec![
        TaskCommand::Stop { name: "x".to_string() },
        TaskCommand::ConfigTemplate { name: "x".to_string(), format: "toml".to_string() },
        TaskCommand::SetPassword { name: "x".to_string(), store: false },
    ];
    for c in cmds {
        let (lines, res) = interpret(&c, reply(false, "already running", text("ignored")));
        assert!(res.is_ok());
        assert_eq!(render(&lines), vec!["err:already running"]);
    }
}

#[test]
fn stop_success_prints_message() {
    let (lines, res) = interpret(&TaskCommand::Stop { name: "x".to_string() }, reply(true, "stopped", Payload::Absent));
    assert!(res.is_ok());
    assert_eq!(render(&lines), vec!["out:stopped"]);
}

#[test]
fn config_template_without_payload_prints_notice() {
    let c = TaskCommand::ConfigTemplate { name: "x".to_string(), format: "toml".to_string() };
    let (lines, _) = interpret(&c, reply(true, "ok", Payload::Absent));
    assert_eq!(render(&lines), vec!["out:Not have default template"]);
    let (lines, _) = interpret(&c, reply(true, "ok", text("a = 1")));
    assert_eq!(render(&lines), vec!["out:a = 1"]);
}

#[test]
fn set_password_without_payload_names_the_task() {
    let c = TaskCommand::SetPassword { name: "web".to_string(), store: true };
    let (lines, res) = interpret(&c, reply(true, "ok", Payload::Absent));
    assert!(res.is_ok());
    assert_eq!(render(&lines), vec!["out:Failed to set password for task web"]);
    let (lines, _) = interpret(&c, reply(true, "ok", text("password set")));
    assert_eq!(render(&lines), vec!["out:password set"]);
}

#[test]
fn status_tags() {
    assert_eq!(status_tag(true), "RUNNING");
    assert_eq!(status_tag(false), "STOPPED");
}

#[test]
fn error_message_is_carried() {
    assert_eq!(TaskError::Io("gone".to_string()).message(), "gone");
    assert_eq!(TaskError::Decode("bad".to_string()).message(), "bad");
}
