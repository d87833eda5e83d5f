use vstd::prelude::*;

verus! {

/// The options of a start (and of a restart).
pub struct StartOptions {
    /// The format of the task's configuration.
    pub format: String,
    /// The task.
    pub name: String,
    /// A local file whose contents are sent as the task's configuration.
    pub config: Option<String>,
    /// Whether to prompt for a secret and send it.
    pub password: bool,
    /// Whether the service should keep the secret.
    pub store_password: bool,
}

/// The options of an exec.
pub struct ExecOptions {
    /// The task.
    pub name: String,
    /// The sub-command of the task to run.
    pub api: String,
    /// Parameters, each of the shape `key=value`; empty ones are skipped.
    pub param: Vec<String>,
    /// Whether to prompt for a secret and send it under the key `password`.
    pub password: bool,
}

/// What the operator asked for.
#[allow(inconsistent_fields)]
pub enum TaskCommand {
    List,
    Start { options: StartOptions },
    Restart { options: StartOptions },
    Stop { name: String },
    Exec { options: ExecOptions },
    ConfigTemplate { name: String, format: String },
    SetPassword { name: String, store: bool },
}

/// The command prompts for a secret before its request: a start or an exec
/// that asks for it, and every password change.
pub open spec fn needs_password(c: TaskCommand) -> bool {
    match c {
        TaskCommand::Start { options } => options.password,
        TaskCommand::Restart { options } => options.password,
        TaskCommand::Exec { options } => options.password,
        TaskCommand::SetPassword { .. } => true,
        _ => false,
    }
}

/// The local configuration file that the command reads before its request.
pub open spec fn config_source(c: TaskCommand) -> Option<String> {
    match c {
        TaskCommand::Start { options } => options.config,
        TaskCommand::Restart { options } => options.config,
        _ => None,
    }
}

/// Whether the command prompts for a secret.
pub fn prompts(c: &TaskCommand) -> (r: bool)
    ensures
        r == needs_password(*c),
{
    match c {
        TaskCommand::Start { options } => options.password,
        TaskCommand::Restart { options } => options.password,
        TaskCommand::Exec { options } => options.password,
        TaskCommand::SetPassword { .. } => true,
        _ => false,
    }
}

/// A copy of an optional string, equal to it.
pub(crate) fn copy_opt(o: &Option<String>) -> (r: Option<String>)
    ensures
        r == *o,
{
    match o {
        Some(s) => Some(s.clone()),
        None => None,
    }
}

} // verus!
