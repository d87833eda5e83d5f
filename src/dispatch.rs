use vstd::prelude::*;
use crate::command::{config_source, copy_opt, needs_password, prompts, StartOptions, TaskCommand};
use crate::error::TaskError;
use crate::params::{parse_exec_params, parse_spec, views, ParamMap};
use crate::reply::{interpret, reply_fails, reply_lines, shown_lines, Line, Reply};
use crate::request::{ConfigTemplateParam, Request, SetPasswordParam, StartParam, StopParam};

verus! {

/// Seconds to wait between the stop and the start of a restart, so that the
/// service can release the task's resources.
pub const SETTLING_SECONDS: u64 = 1;

/// Where a dispatch stands: what it waits for.
pub enum Stage {
    /// The contents of the configuration file.
    Config,
    /// The secret from the prompt.
    Password,
    /// The service's reply.
    Reply,
    /// The end of the settling pause of a restart.
    Pause,
    /// Nothing: the command is over.
    Finished,
}

/// What the runner of a dispatch is to do next.
pub enum Action {
    /// Read the whole file at this path.
    ReadFile(String),
    /// Prompt the operator for a secret.
    PromptPassword,
    /// Send this request to the service.
    Send(Request),
    /// Wait this many seconds.
    Pause(u64),
    /// Stop: the command ended with this result.
    Finish(Result<(), TaskError>),
}

/// What came of the last action.
pub enum Event {
    FileRead(String),
    FileFailed(String),
    PasswordEntered(String),
    PasswordFailed(String),
    Replied(Reply),
    /// The service could not be reached.
    SendFailed(String),
    /// The reply was not a well-formed envelope.
    DecodeFailed(String),
    Paused,
}

/// Lines to show, then an action to perform.
pub struct Step {
    pub output: Vec<Line>,
    pub action: Action,
}

/// The state of one command's dispatch. A restart runs as a stop whose
/// `then_start` holds the start to issue after the settling pause.
pub struct Dispatcher {
    /// The request-level command in progress; never a restart.
    pub call: TaskCommand,
    /// The start that follows the current stop, in a restart.
    pub then_start: Option<StartOptions>,
    pub stage: Stage,
    /// The configuration file's contents, once read.
    pub config: Option<String>,
    /// The secret, once entered.
    pub password: Option<String>,
    /// The parsed exec parameters (empty for other commands).
    pub body: ParamMap,
}

/// The stage after the configuration file: the prompt if the command asks
/// for a secret, else the request.
pub open spec fn stage_after_config(c: TaskCommand) -> Stage {
    if needs_password(c) {
        Stage::Password
    } else {
        Stage::Reply
    }
}

/// The first stage of a command: the file read if it names a configuration
/// file, then as `stage_after_config`.
pub open spec fn first_stage(c: TaskCommand) -> Stage {
    if config_source(c) is Some {
        Stage::Config
    } else {
        stage_after_config(c)
    }
}

/// The events that answer what a stage waits for.
pub open spec fn expects(s: Stage, e: Event) -> bool {
    match s {
        Stage::Config => e is FileRead || e is FileFailed,
        Stage::Password => e is PasswordEntered || e is PasswordFailed,
        Stage::Reply => e is Replied || e is SendFailed || e is DecodeFailed,
        Stage::Pause => e is Paused,
        Stage::Finished => false,
    }
}

/// The body of an exec request: the parameters, with the secret, if one was
/// entered, under the key `password`.
pub open spec fn exec_body(body: Map<Seq<char>, Seq<char>>, password: Option<String>) -> Map<Seq<char>, Seq<char>> {
    match password {
        Some(pw) => body.insert("password"@, pw@),
        None => body,
    }
}

/// `q` is the request of the dispatch `d`, built from its command and what
/// it gathered.
pub open spec fn sends(d: Dispatcher, q: Request) -> bool {
    match d.call {
        TaskCommand::List => q is List,
        TaskCommand::Start { options } => q matches Request::Start(p) && p == (StartParam {
            format: options.format,
            name: options.name,
            config: d.config,
            password: d.password,
            store_password: options.store_password,
        }),
        TaskCommand::Stop { name } => q matches Request::Stop(p) && p.name == name,
        TaskCommand::Exec { options } => q matches Request::Exec { name, api, body } && name
            == options.name && api == options.api && body.wf() && body@ == exec_body(d.body@, d.password),
        TaskCommand::ConfigTemplate { name, format } => q matches Request::ConfigTemplate(p) && p
            == (ConfigTemplateParam { name, format }),
        TaskCommand::SetPassword { name, store } => q matches Request::SetPassword(p) && d.password
            == Some(p.password) && p.name == name && p.store == store,
        TaskCommand::Restart { .. } => false,
    }
}

/// `a` is what the dispatch `d` asks for in its stage.
pub open spec fn announces(d: Dispatcher, a: Action) -> bool {
    match d.stage {
        Stage::Config => a matches Action::ReadFile(p) && config_source(d.call) == Some(p),
        Stage::Password => a is PromptPassword,
        Stage::Reply => a matches Action::Send(q) && sends(d, q),
        Stage::Pause => a == Action::Pause(SETTLING_SECONDS),
        Stage::Finished => a is Finish,
    }
}

/// The request body that a command starts with: its parsed exec parameters,
/// or an empty one; `None` where the parameters are malformed.
pub open spec fn initial_body(c: TaskCommand) -> Option<Map<Seq<char>, Seq<char>>> {
    match c {
        TaskCommand::Exec { options } => parse_spec(views(options.param@)),
        _ => Some(Map::empty()),
    }
}

/// The dispatch ended with `res`, showing `lines` first.
pub open spec fn finishes(d2: Dispatcher, s: Step, res: Result<(), TaskError>) -> bool {
    &&& d2.stage is Finished
    &&& s.action == Action::Finish(res)
}

/// `d`, `s` begin the request-level command `c`, to be followed by
/// `then_start`: a malformed exec fails at once; otherwise nothing has been
/// gathered yet and the first stage's action is announced.
pub open spec fn enters(c: TaskCommand, then_start: Option<StartOptions>, d: Dispatcher, s: Step) -> bool {
    &&& s.output@.len() == 0
    &&& match initial_body(c) {
        None => s.action matches Action::Finish(Err(TaskError::Protocol(m))) && m@
            == "The params length is wrong"@ && d.stage is Finished,
        Some(m) => {
            &&& d.call == c
            &&& d.then_start == then_start
            &&& d.config is None
            &&& d.password is None
            &&& d.stage == first_stage(c)
            &&& d.body@ == m
            &&& announces(d, s.action)
        },
    }
}

/// `d`, `s` begin the command `c`. A restart begins as a stop of the same
/// task, followed by a start with the restart's options.
pub open spec fn begins(c: TaskCommand, d: Dispatcher, s: Step) -> bool {
    match c {
        TaskCommand::Restart { options } => enters(
            TaskCommand::Stop { name: options.name },
            Some(options),
            d,
            s,
        ),
        _ => enters(c, None, d, s),
    }
}

/// `d2`, `s` follow from the dispatch `d` on the event `e`.
pub open spec fn advances(d: Dispatcher, e: Event, d2: Dispatcher, s: Step) -> bool {
    match e {
        Event::FileRead(text) => {
            &&& s.output@.len() == 0
            &&& d2 == (Dispatcher { config: Some(text), stage: stage_after_config(d.call), ..d })
            &&& announces(d2, s.action)
        },
        Event::FileFailed(m) => s.output@.len() == 0 && finishes(d2, s, Err(TaskError::Io(m))),
        Event::PasswordEntered(pw) => {
            &&& s.output@.len() == 0
            &&& d2 == (Dispatcher { password: Some(pw), stage: Stage::Reply, ..d })
            &&& announces(d2, s.action)
        },
        Event::PasswordFailed(m) => s.output@.len() == 0 && finishes(d2, s, Err(TaskError::Input(m))),
        Event::SendFailed(m) => s.output@.len() == 0 && finishes(d2, s, Err(TaskError::Transport(m))),
        Event::DecodeFailed(m) => s.output@.len() == 0 && finishes(d2, s, Err(TaskError::Decode(m))),
        Event::Replied(r) => {
            &&& shown_lines(s.output@) == reply_lines(d.call, r)
            &&& if reply_fails(d.call, r) {
                finishes(d2, s, Err(TaskError::Api(r.message)))
            } else if d.then_start is None {
                finishes(d2, s, Ok(()))
            } else {
                d2 == (Dispatcher { stage: Stage::Pause, ..d }) && announces(d2, s.action)
            }
        },
        Event::Paused => match d.then_start {
            Some(o) => enters(TaskCommand::Start { options: o }, None, d2, s),
            None => false,
        },
    }
}

/// A restart first sends a stop of its task and nothing else; whatever the
/// service replies to it, rejection included, it then pauses for the
/// settling delay; only after the pause does it begin the start, with the
/// restart's own options. A stop that cannot be sent or decoded ends the
/// restart with that error.
pub proof fn lemma_restart_order(
    options: StartOptions,
    d1: Dispatcher,
    s1: Step,
    r: Reply,
    d2: Dispatcher,
    s2: Step,
    d3: Dispatcher,
    s3: Step,
)
    requires
        begins(TaskCommand::Restart { options }, d1, s1),
        advances(d1, Event::Replied(r), d2, s2),
        advances(d2, Event::Paused, d3, s3),
    ensures
        s1.action matches Action::Send(q) && q matches Request::Stop(p) && p.name == options.name,
        s2.action == Action::Pause(SETTLING_SECONDS),
        enters(TaskCommand::Start { options }, None, d3, s3),
{
}

/// A stop within a restart that fails below the service (not sent, or its
/// reply not decoded) ends the restart with that error: no start follows.
pub proof fn lemma_restart_stop_failure_aborts(options: StartOptions, d1: Dispatcher, s1: Step, e: Event, d2: Dispatcher, s2: Step)
    requires
        begins(TaskCommand::Restart { options }, d1, s1),
        e is SendFailed || e is DecodeFailed,
        advances(d1, e, d2, s2),
    ensures
        d2.stage is Finished,
        s2.action matches Action::Finish(res) && res is Err,
{
}

/// A rejection reported by the service never ends a command other than the
/// listing with an error: the message goes to the error stream and the
/// command ends normally (or, in a restart, goes on to its pause).
pub proof fn lemma_rejection_not_fatal(d: Dispatcher, r: Reply, d2: Dispatcher, s: Step)
    requires
        d.wf(),
        d.call !is List,
        !r.success,
        advances(d, Event::Replied(r), d2, s),
    ensures
        shown_lines(s.output@) == seq![crate::reply::Shown::Stderr(r.message@)],
        s.action == Action::Finish(Ok(())) || s.action == Action::Pause(SETTLING_SECONDS),
{
}

/// A start with a configuration file reads the file before anything else,
/// and when the file cannot be read it ends with an I/O error without ever
/// sending a request.
pub proof fn lemma_config_read_first(options: StartOptions, path: String, d1: Dispatcher, s1: Step, m: String, d2: Dispatcher, s2: Step)
    requires
        options.config == Some(path),
        begins(TaskCommand::Start { options }, d1, s1),
        advances(d1, Event::FileFailed(m), d2, s2),
    ensures
        s1.action == Action::ReadFile(path),
        s2.action == Action::Finish(Err(TaskError::Io(m))),
        d2.stage is Finished,
{
}

impl Dispatcher {
    /// The command in progress is request-level, and what its stage needs
    /// is there.
    pub open spec fn wf(self) -> bool {
        &&& self.call !is Restart
        &&& self.body.wf()
        &&& self.stage is Config ==> config_source(self.call) is Some
        &&& self.stage is Pause ==> self.then_start is Some
        &&& self.stage is Reply && self.call is SetPassword ==> self.password is Some
    }

    /// A copy of the parsed parameters, with the same contents.
    fn copy_body(&self) -> (r: ParamMap)
        ensures
            r.wf() == self.body.wf(),
            r@ == self.body@,
    {
        let mut entries: Vec<(String, String)> = Vec::new();
        let mut i: usize = 0;
        while i < self.body.entries.len()
            invariant
                i <= self.body.entries.len(),
                entries@ == self.body.entries@.take(i as int),
            decreases self.body.entries.len() - i,
        {
            let e = &self.body.entries[i];
            entries.push((e.0.clone(), e.1.clone()));
            assert(entries@ =~= self.body.entries@.take(i as int + 1));
            i = i + 1;
        }
        assert(entries@ =~= self.body.entries@);
        let r = ParamMap { entries };
        assert(r.entries@ == self.body.entries@);
        r
    }

    /// The request of the dispatch, from its command and what it gathered.
    fn request(&self) -> (q: Request)
        requires
            self.wf(),
            self.stage is Reply,
        ensures
            sends(*self, q),
    {
        match &self.call {
            TaskCommand::List => Request::List,
            TaskCommand::Start { options } => Request::Start(StartParam {
                format: options.format.clone(),
                name: options.name.clone(),
                config: copy_opt(&self.config),
                password: copy_opt(&self.password),
                store_password: options.store_password,
            }),
            TaskCommand::Stop { name } => Request::Stop(StopParam { name: name.clone() }),
            TaskCommand::Exec { options } => {
                let mut body = self.copy_body();
                match &self.password {
                    Some(pw) => body.insert("password".to_owned(), pw.clone()),
                    None => {},
                }
                Request::Exec { name: options.name.clone(), api: options.api.clone(), body }
            },
            TaskCommand::ConfigTemplate { name, format } => Request::ConfigTemplate(
                ConfigTemplateParam { name: name.clone(), format: format.clone() },
            ),
            TaskCommand::SetPassword { name, store } => {
                let pw = match &self.password {
                    Some(pw) => pw.clone(),
                    None => String::new(),
                };
                Request::SetPassword(SetPasswordParam { name: name.clone(), password: pw, store: *store })
            },
            TaskCommand::Restart { .. } => Request::List,
        }
    }

    /// The action that the dispatch's stage asks for.
    fn next_action(&self) -> (a: Action)
        requires
            self.wf(),
        ensures
            announces(*self, a),
    {
        match self.stage {
            Stage::Config => match &self.call {
                TaskCommand::Start { options } => match &options.config {
                    Some(p) => Action::ReadFile(p.clone()),
                    None => Action::ReadFile(String::new()),
                },
                _ => Action::ReadFile(String::new()),
            },
            Stage::Password => Action::PromptPassword,
            Stage::Reply => Action::Send(self.request()),
            Stage::Pause => Action::Pause(SETTLING_SECONDS),
            Stage::Finished => Action::Finish(Ok(())),
        }
    }

    /// Begins the request-level command `c`.
    fn enter(c: TaskCommand, then_start: Option<StartOptions>) -> (r: (Dispatcher, Step))
        requires
            c !is Restart,
        ensures
            r.0.wf(),
            enters(c, then_start, r.0, r.1),
    {
        let body = match &c {
            TaskCommand::Exec { options } => match parse_exec_params(&options.param) {
                Ok(b) => b,
                Err(e) => {
                    let d = Dispatcher {
                        call: c,
                        then_start,
                        stage: Stage::Finished,
                        config: None,
                        password: None,
                        body: ParamMap::new(),
                    };
                    return (d, Step { output: Vec::new(), action: Action::Finish(Err(e)) });
                },
            },
            _ => ParamMap::new(),
        };
        let has_config = match &c {
            TaskCommand::Start { options } => options.config.is_some(),
            _ => false,
        };
        let stage = if has_config {
            Stage::Config
        } else if prompts(&c) {
            Stage::Password
        } else {
            Stage::Reply
        };
        let d = Dispatcher { call: c, then_start, stage, config: None, password: None, body };
        let a = d.next_action();
        (d, Step { output: Vec::new(), action: a })
    }

    /// Begins the dispatch of a command: the first state, and what to do.
    pub fn begin(c: TaskCommand) -> (r: (Dispatcher, Step))
        ensures
            r.0.wf(),
            begins(c, r.0, r.1),
    {
        match c {
            TaskCommand::Restart { options } => {
                let name = options.name.clone();
                Self::enter(TaskCommand::Stop { name }, Some(options))
            },
            _ => Self::enter(c, None),
        }
    }

    /// Whether the dispatch waits for the event `e`.
    pub fn expects_event(&self, e: &Event) -> (r: bool)
        ensures
            r == expects(self.stage, *e),
    {
        match self.stage {
            Stage::Config => matches!(e, Event::FileRead(_) | Event::FileFailed(_)),
            Stage::Password => matches!(e, Event::PasswordEntered(_) | Event::PasswordFailed(_)),
            Stage::Reply => matches!(e, Event::Replied(_) | Event::SendFailed(_) | Event::DecodeFailed(_)),
            Stage::Pause => matches!(e, Event::Paused),
            Stage::Finished => false,
        }
    }

    /// Ends the dispatch with `res`, showing `output` first.
    fn finish(self, output: Vec<Line>, res: Result<(), TaskError>) -> (r: (Dispatcher, Step))
        requires
            self.wf(),
        ensures
            r.0.wf(),
            r.1.output == output,
            finishes(r.0, r.1, res),
    {
        (Dispatcher { stage: Stage::Finished, ..self }, Step { output, action: Action::Finish(res) })
    }

    /// Moves the dispatch on by the event `e`, which must answer what its
    /// stage waits for.
    pub fn step(self, e: Event) -> (r: (Dispatcher, Step))
        requires
            self.wf(),
            expects(self.stage, e),
        ensures
            r.0.wf(),
            advances(self, e, r.0, r.1),
    {
        match e {
            Event::FileRead(text) => {
                let stage = if prompts(&self.call) {
                    Stage::Password
                } else {
                    Stage::Reply
                };
                let d = Dispatcher { config: Some(text), stage, ..self };
                let a = d.next_action();
                (d, Step { output: Vec::new(), action: a })
            },
            Event::FileFailed(m) => self.finish(Vec::new(), Err(TaskError::Io(m))),
            Event::PasswordEntered(pw) => {
                let d = Dispatcher { password: Some(pw), stage: Stage::Reply, ..self };
                let a = d.next_action();
                (d, Step { output: Vec::new(), action: a })
            },
            Event::PasswordFailed(m) => self.finish(Vec::new(), Err(TaskError::Input(m))),
            Event::SendFailed(m) => self.finish(Vec::new(), Err(TaskError::Transport(m))),
            Event::DecodeFailed(m) => self.finish(Vec::new(), Err(TaskError::Decode(m))),
            Event::Replied(reply) => {
                let (lines, res) = interpret(&self.call, reply);
                match res {
                    Err(err) => self.finish(lines, Err(err)),
                    Ok(()) => {
                        if self.then_start.is_none() {
                            self.finish(lines, Ok(()))
                        } else {
                            let d = Dispatcher { stage: Stage::Pause, ..self };
                            (d, Step { output: lines, action: Action::Pause(SETTLING_SECONDS) })
                        }
                    },
                }
            },
            Event::Paused => match self.then_start {
                Some(o) => Self::enter(TaskCommand::Start { options: o }, None),
                None => self.finish(Vec::new(), Ok(())),
            },
        }
    }
}

} // verus!
