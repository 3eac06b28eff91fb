use task_runner::runner::{plan, Command, Plan};
use task_runner::task::{Group, Task, TaskSet};

fn task(name: &str, cmd: &str) -> Task {
    Task { name: name.to_string(), cmd: cmd.to_string() }
}

fn sample() -> TaskSet {
    TaskSet::new(
        Some(vec![task("a", "true"), task("b", "false")]),
        Some(vec![task("compile", "make")]),
    )
}

#[test]
fn missing_groups_are_empty() {
    let set = TaskSet::new(None, None);
    assert_eq!(set.group_len(Group::Run), 0);
    assert_eq!(set.group_len(Group::Build), 0);
    assert!(TaskSet::new(None, None).into_group(Group::Run).is_empty());
}

#[test]
fn groups_keep_declaration_order() {
    let set = sample();
    assert_eq!(set.group_len(Group::Run), 2);
    assert_eq!(set.group_len(Group::Build), 1);
    assert_eq!(sample().into_group(Group::Run), vec![task("a", "true"), task("b", "false")]);
    assert_eq!(sample().into_group(Group::Build), vec![task("compile", "make")]);
}

#[test]
fn same_document_loaded_twice_gives_same_tasks() {
    let first = sample();
    let second = sample();
    assert_eq!(first.into_group(Group::Run), second.into_group(Group::Run));
    assert_eq!(sample().into_group(Group::Build), sample().into_group(Group::Build));
}

#[test]
fn commands_select_their_group() {
    assert_eq!(Command::Run.group(), Group::Run);
    assert_eq!(Command::R.group(), Group::Run);
    assert_eq!(Command::Build.group(), Group::Build);
}

#[test]
fn absent_config_attempts_no_batch() {
    assert!(matches!(plan(None, Some(Command::Run)), Plan::ConfigError));
    assert!(matches!(plan(None, Some(Command::Build)), Plan::ConfigError));
    assert!(matches!(plan(None, None), Plan::ConfigError));
}

#[test]
fn no_subcommand_runs_nothing() {
    assert!(matches!(plan(Some(sample()), None), Plan::NoCommand));
}

#[test]
fn run_alias_plans_the_run_group() {
    match plan(Some(sample()), Some(Command::R)) {
        Plan::Execute { group, tasks } => {
            assert_eq!(group, Group::Run);
            assert_eq!(tasks, vec![task("a", "true"), task("b", "false")]);
        }
        other => panic!("unexpected plan {:?}", other),
    }
}

#[test]
fn build_plans_the_build_group() {
    match plan(Some(sample()), Some(Command::Build)) {
        Plan::Execute { group, tasks } => {
            assert_eq!(group, Group::Build);
            assert_eq!(tasks, vec![task("compile", "make")]);
        }
        other => panic!("unexpected plan {:?}", other),
    }
}
