use vstd::prelude::*;
use crate::task::{Group, Task, TaskSet};

verus! {

/// The subcommands of the program: `run` (also spelled `r`) runs the "run"
/// group, `build` runs the "build" group.
#[derive(Clone, Copy, Debug, PartialEq, Eq, Structural)]
pub enum Command {
    Run,
    R,
    Build,
}

impl Command {
    pub open spec fn group_spec(self) -> Group {
        match self {
            Command::Run | Command::R => Group::Run,
            Command::Build => Group::Build,
        }
    }

    /// The task group that this subcommand executes.
    pub fn group(self) -> (r: Group)
        ensures
            r == self.group_spec(),
    {
        match self {
            Command::Run | Command::R => Group::Run,
            Command::Build => Group::Build,
        }
    }
}

/// What the program does once it has tried to load its configuration and
/// read its subcommand.
#[derive(Debug)]
pub enum Plan {
    /// The configuration could not be loaded: no batch is attempted.
    ConfigError,
    /// No subcommand was given: nothing is run.
    NoCommand,
    /// Run one batch over the tasks of `group`.
    Execute { group: Group, tasks: Vec<Task> },
}

/// Decides what to do from the loaded task set (`None` when loading failed)
/// and the subcommand, if any. A load failure wins over everything else.
pub fn plan(loaded: Option<TaskSet>, command: Option<Command>) -> (r: Plan)
    ensures
        loaded is None ==> r is ConfigError,
        loaded is Some && command is None ==> r is NoCommand,
        loaded is Some && command is Some ==> (r matches Plan::Execute { group, tasks }
            && group == command->0.group_spec()
            && tasks@ == loaded->0.group_spec(command->0.group_spec())),
{
    match loaded {
        None => Plan::ConfigError,
        Some(set) => match command {
            None => Plan::NoCommand,
            Some(c) => {
                let group = c.group();
                let tasks = set.into_group(group);
                Plan::Execute { group, tasks }
            },
        },
    }
}

} // verus!
