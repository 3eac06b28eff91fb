use vstd::prelude::*;

verus! {

/// One unit of work: a name used for reporting and a command line handed
/// verbatim to a subshell.
#[derive(Clone, Debug, PartialEq, Eq)]
pub struct Task {
    pub name: String,
    pub cmd: String,
}

/// Which of the two groups of a task set a batch runs.
#[derive(Clone, Copy, Debug, PartialEq, Eq, Structural)]
pub enum Group {
    Run,
    Build,
}

/// The tasks declared in the configuration: an optional "run" group and an
/// optional "build" group. A missing group holds no tasks.
#[derive(Debug)]
pub struct TaskSet {
    pub tasks: Option<Vec<Task>>,
    pub builds: Option<Vec<Task>>,
}

/// The tasks of an optional group; a missing group is empty.
pub open spec fn tasks_or_empty(g: Option<Vec<Task>>) -> Seq<Task> {
    match g {
        Some(v) => v@,
        None => Seq::empty(),
    }
}

impl TaskSet {
    /// The tasks of group `g`, in the order they were declared.
    pub open spec fn group_spec(self, g: Group) -> Seq<Task> {
        match g {
            Group::Run => tasks_or_empty(self.tasks),
            Group::Build => tasks_or_empty(self.builds),
        }
    }

    /// Builds a task set from its two optional groups.
    pub fn new(tasks: Option<Vec<Task>>, builds: Option<Vec<Task>>) -> (r: TaskSet)
        ensures
            r.group_spec(Group::Run) == tasks_or_empty(tasks),
            r.group_spec(Group::Build) == tasks_or_empty(builds),
    {
        TaskSet { tasks, builds }
    }

    /// Takes the tasks of group `g` out of the set, in declaration order.
    pub fn into_group(self, g: Group) -> (r: Vec<Task>)
        ensures
            r@ == self.group_spec(g),
    {
        let chosen = match g {
            Group::Run => self.tasks,
            Group::Build => self.builds,
        };
        match chosen {
            Some(v) => v,
            None => Vec::new(),
        }
    }

    /// The number of tasks in group `g`.
    pub fn group_len(&self, g: Group) -> (r: usize)
        ensures
            r == self.group_spec(g).len(),
    {
        let chosen = match g {
            Group::Run => &self.tasks,
            Group::Build => &self.builds,
        };
        match chosen {
            Some(v) => v.len(),
            None => 0,
        }
    }
}

} // verus!
