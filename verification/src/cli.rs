//! The maintenance command: which tasks an action stands for.

use crate::config::{Action, Config};
use vstd::prelude::*;

verus! {

/// One task of the maintenance command.
#[derive(Copy, Clone, PartialEq, Eq, Debug, Structural)]
pub enum Task {
    /// Fill the database with sample pastes.
    Seed,
    /// Empty the database.
    Drop,
}

impl Task {
    /// The line printed when the step starts.
    pub open spec fn spec_message(self) -> Seq<char> {
        match self {
            Task::Seed => "seeding..."@,
            Task::Drop => "dropping..."@,
        }
    }

    /// The line printed when the step starts.
    pub fn message(self) -> (line: &'static str)
        ensures
            line@ == self.spec_message(),
    {
        match self {
            Task::Seed => "seeding...",
            Task::Drop => "dropping...",
        }
    }
}

/// The tasks that an action stands for, in the order in which they run.
pub open spec fn tasks_of(action: Option<Action>) -> Seq<Task> {
    match action {
        None => seq![],
        Some(Action::Seed) => seq![Task::Seed],
        Some(Action::Drop) => seq![Task::Drop],
        Some(Action::All) => seq![Task::Seed, Task::Drop],
    }
}

/// Lists the tasks to run for a configuration, in order. Without an action
/// there is nothing to do.
pub fn run(config: &Config) -> (tasks: Vec<Task>)
    ensures
        tasks@ == tasks_of(config.action),
{
    let mut tasks: Vec<Task> = Vec::new();
    match config.action {
        None => {},
        Some(Action::Seed) => {
            tasks.push(Task::Seed);
        },
        Some(Action::Drop) => {
            tasks.push(Task::Drop);
        },
        Some(Action::All) => {
            tasks.push(Task::Seed);
            tasks.push(Task::Drop);
        },
    }
    assert(tasks@ =~= tasks_of(config.action));
    tasks
}

} // verus!
