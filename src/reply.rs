use vstd::prelude::*;
use crate::command::TaskCommand;
use crate::error::TaskError;

verus! {

/// One task known to the service.
pub struct TaskSummary {
    pub name: String,
    pub running: bool,
}

/// The typed payload of a reply.
pub enum Payload {
    Absent,
    /// The task listing, in the service's order.
    Tasks(Vec<TaskSummary>),
    /// A text: a message, a template, or a task's rendered output.
    Text(String),
}

/// The envelope that every reply of the service comes in.
pub struct Reply {
    pub success: bool,
    pub message: String,
    pub data: Payload,
}

/// One line of output.
pub enum Line {
    /// A line on standard output.
    Stdout(String),
    /// A line on the error stream.
    Stderr(String),
    /// A task's state and name, on standard output.
    Status { running: bool, name: String },
}

/// What a line shows, as plain text.
pub enum Shown {
    Stdout(Seq<char>),
    Stderr(Seq<char>),
    Status(bool, Seq<char>),
}

impl Line {
    pub open spec fn shown(self) -> Shown {
        match self {
            Line::Stdout(s) => Shown::Stdout(s@),
            Line::Stderr(s) => Shown::Stderr(s@),
            Line::Status { running, name } => Shown::Status(running, name@),
        }
    }
}

/// What a list of lines shows.
pub open spec fn shown_lines(ls: Seq<Line>) -> Seq<Shown> {
    ls.map_values(|l: Line| l.shown())
}

/// The notice printed when the service has no configuration template.
pub open spec fn no_template_notice() -> Seq<char> {
    "Not have default template"@
}

/// The notice printed when a password change comes back without a text.
pub open spec fn no_password_notice(name: Seq<char>) -> Seq<char> {
    "Failed to set password for task "@ + name
}

/// The one line that a successful reply with an optional text shows:
/// the text, or `absent` without it.
pub open spec fn text_or(data: Payload, absent: Seq<char>) -> Seq<Shown> {
    match data {
        Payload::Text(v) => seq![Shown::Stdout(v@)],
        _ => seq![Shown::Stdout(absent)],
    }
}

/// The output of a command on a reply of the service. A rejected reply shows
/// its message on the error stream (a rejected listing shows nothing: it
/// becomes an error). A listing shows one status line per task; a start, a
/// stop and a restart show the message; the others show their text, or a
/// fixed line without it.
pub open spec fn reply_lines(c: TaskCommand, r: Reply) -> Seq<Shown> {
    if !r.success {
        if c is List {
            seq![]
        } else {
            seq![Shown::Stderr(r.message@)]
        }
    } else {
        match c {
            TaskCommand::List => match r.data {
                Payload::Tasks(ts) => ts@.map_values(|t: TaskSummary| Shown::Status(t.running, t.name@)),
                _ => seq![],
            },
            TaskCommand::Start { .. } => seq![Shown::Stdout(r.message@)],
            TaskCommand::Restart { .. } => seq![Shown::Stdout(r.message@)],
            TaskCommand::Stop { .. } => seq![Shown::Stdout(r.message@)],
            TaskCommand::Exec { .. } => text_or(r.data, Seq::empty()),
            TaskCommand::ConfigTemplate { .. } => text_or(r.data, no_template_notice()),
            TaskCommand::SetPassword { name, .. } => text_or(r.data, no_password_notice(name@)),
        }
    }
}

/// Only a rejected listing turns into an error; every other rejection is
/// reported and the command ends normally.
pub open spec fn reply_fails(c: TaskCommand, r: Reply) -> bool {
    c is List && !r.success
}

/// A rejection reported by the service is shown as its message, alone, on
/// the error stream, and ends every command but the listing normally.
pub proof fn lemma_rejection_reported(c: TaskCommand, r: Reply)
    requires
        !r.success,
        c !is List,
    ensures
        reply_lines(c, r) == seq![Shown::Stderr(r.message@)],
        !reply_fails(c, r),
{
}

/// A listing shows exactly one status line per task, in the service's
/// order, marked running exactly for the running tasks; none for no tasks.
pub proof fn lemma_list_lines(r: Reply, ts: Vec<TaskSummary>)
    requires
        r.success,
        r.data == Payload::Tasks(ts),
    ensures
        reply_lines(TaskCommand::List, r).len() == ts@.len(),
        forall|i: int| 0 <= i < ts@.len() ==> #[trigger] reply_lines(TaskCommand::List, r)[i] == Shown::Status(
            ts@[i].running,
            ts@[i].name@,
        ),
        ts@.len() == 0 ==> reply_lines(TaskCommand::List, r) == Seq::<Shown>::empty(),
{
    if ts@.len() == 0 {
        assert(reply_lines(TaskCommand::List, r) =~= Seq::<Shown>::empty());
    }
}

/// A configuration template that comes back without a payload shows the
/// fixed notice, and only it.
pub proof fn lemma_missing_template_notice(name: String, format: String, r: Reply)
    requires
        r.success,
        r.data is Absent,
    ensures
        reply_lines(TaskCommand::ConfigTemplate { name, format }, r) == seq![
            Shown::Stdout(no_template_notice()),
        ],
{
}

/// The tag of a status line.
pub fn status_tag(running: bool) -> (r: &'static str)
    ensures
        r@ == (if running { "RUNNING"@ } else { "STOPPED"@ }),
{
    if running {
        "RUNNING"
    } else {
        "STOPPED"
    }
}

/// A single line on standard output showing the payload's text, or `absent`.
fn text_line(data: Payload, absent: String) -> (r: Vec<Line>)
    ensures
        shown_lines(r@) == text_or(data, absent@),
{
    let l = match data {
        Payload::Text(v) => Line::Stdout(v),
        _ => Line::Stdout(absent),
    };
    let r = vec![l];
    assert(shown_lines(r@) =~= text_or(data, absent@));
    r
}

/// The status lines of a listing, one per task, in order.
fn status_lines(ts: &Vec<TaskSummary>) -> (r: Vec<Line>)
    ensures
        shown_lines(r@) == ts@.map_values(|t: TaskSummary| Shown::Status(t.running, t.name@)),
{
    let mut out: Vec<Line> = Vec::new();
    let mut i: usize = 0;
    while i < ts.len()
        invariant
            i <= ts.len(),
            out@.len() == i,
            forall|j: int| 0 <= j < i ==> #[trigger] out@[j].shown() == Shown::Status(ts@[j].running, ts@[j].name@),
        decreases ts.len() - i,
    {
        out.push(Line::Status { running: ts[i].running, name: ts[i].name.clone() });
        i = i + 1;
    }
    assert(shown_lines(out@) =~= ts@.map_values(|t: TaskSummary| Shown::Status(t.running, t.name@)));
    out
}

/// Interprets a reply of the service to the command `c`: the lines to show,
/// and the error that a rejected listing becomes.
pub fn interpret(c: &TaskCommand, r: Reply) -> (out: (Vec<Line>, Result<(), TaskError>))
    ensures
        shown_lines(out.0@) == reply_lines(*c, r),
        reply_fails(*c, r) ==> out.1 == Err::<(), TaskError>(TaskError::Api(r.message)),
        !reply_fails(*c, r) ==> out.1 is Ok,
{
    if !r.success {
        match c {
            TaskCommand::List => {
                assert(shown_lines(Seq::<Line>::empty()) =~= Seq::<Shown>::empty());
                (Vec::new(), Err(TaskError::Api(r.message)))
            },
            _ => {
                let lines = vec![Line::Stderr(r.message)];
                assert(shown_lines(lines@) =~= reply_lines(*c, r));
                (lines, Ok(()))
            },
        }
    } else {
        let lines = match c {
            TaskCommand::List => match &r.data {
                Payload::Tasks(ts) => status_lines(ts),
                _ => {
                    assert(shown_lines(Seq::<Line>::empty()) =~= Seq::<Shown>::empty());
                    Vec::new()
                },
            },
            TaskCommand::Start { .. } | TaskCommand::Restart { .. } | TaskCommand::Stop { .. } => {
                let lines = vec![Line::Stdout(r.message)];
                assert(shown_lines(lines@) =~= reply_lines(*c, r));
                lines
            },
            TaskCommand::Exec { .. } => text_line(r.data, String::new()),
            TaskCommand::ConfigTemplate { .. } => text_line(
                r.data,
                "Not have default template".to_owned(),
            ),
            TaskCommand::SetPassword { name, .. } => text_line(
                r.data,
                "Failed to set password for task ".to_owned().concat(name.as_str()),
            ),
        };
        (lines, Ok(()))
    }
}

} // verus!
