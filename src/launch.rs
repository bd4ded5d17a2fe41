//! The decisions around running a command in a resolved environment: what to
//! start, with which variables, and what the launcher does once the child has
//! ended.
use vstd::prelude::*;

use crate::error::EnvLoadError;
use crate::pairs::{keys_unique, lookup, pairs_view};
use crate::process_env::ProcessEnv;

verus! {

/// Exit code of the launcher when the child's own code cannot be known, as
/// when a signal ended it.
pub const UNKNOWN_EXIT_CODE: i32 = -1;

/// Why a command could not be run.
#[derive(Debug, Clone, PartialEq, Eq)]
pub enum LaunchError {
    /// The command has no program to start.
    EmptyCommand,
    /// The program could not be started; the child never ran.
    Spawn(String),
}

/// Why `run-in` failed before the child ended.
#[derive(Debug, Clone, PartialEq, Eq)]
pub enum RunInError {
    /// The environment could not be resolved.
    LoadError(EnvLoadError),
    /// The command could not be run.
    RunError(LaunchError),
}

/// A child process to start: its program, its arguments, and exactly the
/// variables of its environment.
#[derive(Debug)]
pub struct LaunchPlan {
    pub program: String,
    pub args: Vec<String>,
    pub env: Vec<(String, String)>,
}

/// How a child process ended.
#[derive(Debug, Clone, Copy, PartialEq, Eq)]
pub struct ChildExit {
    /// It exited with success.
    pub success: bool,
    /// Its exit code, when it exited on its own.
    pub code: Option<i32>,
}

/// The exit code that the launcher passes on for a child that ended as `exit`.
pub open spec fn exit_code_of(exit: ChildExit) -> i32 {
    if exit.success {
        0
    } else {
        match exit.code {
            Some(c) => c,
            None => UNKNOWN_EXIT_CODE,
        }
    }
}

/// What the launcher does once its child has ended.
#[derive(Debug, Clone, Copy, PartialEq, Eq)]
pub struct Completion {
    /// The launcher's own exit code.
    pub exit_code: i32,
    /// Whether the environment file is to be removed.
    pub remove_env_file: bool,
}

/// Runs a command with the environment cached in a file.
#[derive(Debug)]
pub struct RunWith {
    /// The file written by the cache command.
    pub env_file: String,
    /// Whether the file is removed after a successful run.
    pub cleanup: bool,
    /// The program and its arguments.
    pub command: Vec<String>,
}

/// The child to start for `command` in environment `env`: the first word is
/// the program, the others its arguments, and the merged environment is all
/// that it gets. An empty command is refused.
pub fn plan_launch(env: ProcessEnv, command: Vec<String>) -> (r: Result<LaunchPlan, LaunchError>)
    ensures
        command@.len() == 0 ==> r == Err::<LaunchPlan, LaunchError>(LaunchError::EmptyCommand),
        command@.len() > 0 ==> (r matches Ok(p) && p.program == command@[0] && p.args@
            == command@.drop_first() && keys_unique(pairs_view(p.env@)) && forall|k: Seq<char>|
            #[trigger] lookup(pairs_view(p.env@), k) == env.env_value(k)),
{
    if command.len() == 0 {
        return Err(LaunchError::EmptyCommand);
    }
    let mut args = command;
    let program = args.remove(0);
    let vars = env.into_env();
    Ok(LaunchPlan { program, args, env: vars })
}

/// The launcher's exit code for a child that ended as `exit`: 0 on success,
/// else the child's own code, else `UNKNOWN_EXIT_CODE`.
pub fn exit_code(exit: ChildExit) -> (r: i32)
    ensures
        r == exit_code_of(exit),
{
    if exit.success {
        0
    } else {
        match exit.code {
            Some(c) => c,
            None => UNKNOWN_EXIT_CODE,
        }
    }
}

impl RunWith {
    /// Once the child has ended: pass its exit code on, and remove the
    /// environment file only when the child succeeded and cleanup was asked
    /// for; a failed run leaves the file in place.
    pub fn complete(&self, exit: ChildExit) -> (r: Completion)
        ensures
            r.exit_code == exit_code_of(exit),
            r.remove_env_file == (exit.success && self.cleanup),
    {
        Completion { exit_code: exit_code(exit), remove_env_file: exit.success && self.cleanup }
    }
}

} // verus!
