use task_runner::batch::Batch;
use task_runner::outcome::{outcome_from_exit, ExitReport, Outcome};
use task_runner::task::{Group, Task, TaskSet};
use task_runner::unit::{advance, UnitEvent, UnitState, POLL_INTERVAL_MS};

fn task(name: &str, cmd: &str) -> Task {
    Task { name: name.to_string(), cmd: cmd.to_string() }
}

fn exited(success: bool, code: i32, stdout: &str, stderr: &str) -> ExitReport {
    ExitReport {
        success,
        code: Some(code),
        stdout: stdout.as_bytes().to_vec(),
        stderr: stderr.as_bytes().to_vec(),
    }
}

#[test]
fn success_report_gives_succeeded_with_stdout() {
    let o = outcome_from_exit(exited(true, 0, "hello\n", "warn"));
    assert_eq!(o, Outcome::Succeeded { stdout: b"hello\n".to_vec() });
}

#[test]
fn failure_report_gives_failed_with_code_and_stderr() {
    let o = outcome_from_exit(exited(false, 2, "partial", "boom"));
    assert_eq!(o, Outcome::Failed { code: Some(2), stderr: b"boom".to_vec() });
}

#[test]
fn spawn_failure_is_a_failed_outcome_without_code() {
    let mut b = Batch::new(vec![task("x", "")]);
    b.start_all();
    assert!(b.apply(0, UnitEvent::SpawnFailed(b"no shell".to_vec())));
    assert_eq!(
        *b.unit(0),
        UnitState::Done(Outcome::Failed { code: None, stderr: b"no shell".to_vec() })
    );
    assert!(b.is_complete());
}

#[test]
fn advance_moves_started_to_running_and_cancel_to_cancelled() {
    assert_eq!(advance(UnitEvent::Started), UnitState::Running);
    assert_eq!(advance(UnitEvent::CancelObserved), UnitState::Done(Outcome::Cancelled));
}

#[test]
fn new_batch_is_pending_and_not_cancelled() {
    let b = Batch::new(vec![task("a", "true"), task("b", "false")]);
    assert_eq!(b.len(), 2);
    assert_eq!(*b.unit(0), UnitState::Pending);
    assert_eq!(*b.unit(1), UnitState::Pending);
    assert_eq!(b.task(1).name, "b");
    assert_eq!(b.task(1).cmd, "false");
    assert!(!b.cancel_requested());
    assert!(!b.is_complete());
}

#[test]
fn start_all_launches_every_pending_unit_in_input_order() {
    let mut b = Batch::new(vec![task("a", "1"), task("b", "2"), task("c", "3")]);
    assert_eq!(b.start_all(), vec![0, 1, 2]);
    for i in 0..3 {
        assert_eq!(*b.unit(i), UnitState::Running);
    }
    assert_eq!(b.start_all(), Vec::<usize>::new());
}

#[test]
fn scenario_run_group_true_and_false() {
    let set = TaskSet::new(Some(vec![task("a", "true"), task("b", "false")]), None);
    let mut b = Batch::new(set.into_group(Group::Run));
    b.start_all();
    assert!(b.apply(1, UnitEvent::Finished(exited(false, 1, "", ""))));
    assert!(!b.is_complete());
    assert!(b.apply(0, UnitEvent::Finished(exited(true, 0, "", ""))));
    assert!(b.is_complete());
    assert_eq!(*b.unit(0), UnitState::Done(Outcome::Succeeded { stdout: vec![] }));
    assert_eq!(*b.unit(1), UnitState::Done(Outcome::Failed { code: Some(1), stderr: vec![] }));
}

#[test]
fn scenario_build_cancelled_right_after_launch() {
    let set = TaskSet::new(None, Some(vec![task("slow", "sleep 5")]));
    let mut b = Batch::new(set.into_group(Group::Build));
    assert_eq!(b.start_all(), vec![0]);
    assert_eq!(b.request_cancel(), vec![0]);
    assert!(b.cancel_requested());
    assert!(b.is_complete());
    assert_eq!(*b.unit(0), UnitState::Done(Outcome::Cancelled));
    // the command finishing later does not change the outcome
    assert!(!b.apply(0, UnitEvent::Finished(exited(true, 0, "", ""))));
    assert_eq!(*b.unit(0), UnitState::Done(Outcome::Cancelled));
}

#[test]
fn fan_out_completes_with_one_outcome_per_task_in_any_order() {
    let tasks: Vec<Task> = (0..5).map(|i| task(&format!("t{}", i), "cmd")).collect();
    let mut b = Batch::new(tasks);
    b.start_all();
    for i in (0..5).rev() {
        assert!(!b.is_complete());
        let ok = i % 2 == 0;
        assert!(b.apply(i, UnitEvent::Finished(exited(ok, if ok { 0 } else { 3 }, "o", "e"))));
    }
    assert!(b.is_complete());
    for i in 0..5 {
        let expected = if i % 2 == 0 {
            Outcome::Succeeded { stdout: b"o".to_vec() }
        } else {
            Outcome::Failed { code: Some(3), stderr: b"e".to_vec() }
        };
        assert_eq!(*b.unit(i), UnitState::Done(expected));
    }
}

#[test]
fn empty_batch_is_complete_at_once() {
    let mut b = Batch::new(vec![]);
    assert_eq!(b.len(), 0);
    assert!(b.is_complete());
    assert_eq!(b.start_all(), Vec::<usize>::new());
    assert!(b.is_complete());
}

#[test]
fn cancellation_keeps_finished_outcomes() {
    let mut b = Batch::new(vec![task("done", "true"), task("busy", "sleep 9"), task("idle", "x")]);
    b.start_all();
    assert!(b.apply(0, UnitEvent::Finished(exited(true, 0, "ok", ""))));
    assert_eq!(b.request_cancel(), vec![1, 2]);
    assert_eq!(*b.unit(0), UnitState::Done(Outcome::Succeeded { stdout: b"ok".to_vec() }));
    assert_eq!(*b.unit(1), UnitState::Done(Outcome::Cancelled));
    assert_eq!(*b.unit(2), UnitState::Done(Outcome::Cancelled));
    assert_eq!(b.request_cancel(), Vec::<usize>::new());
}

#[test]
fn failing_task_does_not_touch_its_sibling() {
    let mut b = Batch::new(vec![task("bad", "false"), task("good", "true")]);
    b.start_all();
    assert!(b.apply(0, UnitEvent::Finished(exited(false, 1, "", "nope"))));
    assert_eq!(*b.unit(1), UnitState::Running);
    assert!(!b.cancel_requested());
    assert!(!b.is_complete());
    assert!(b.apply(1, UnitEvent::Finished(exited(true, 0, "yes", ""))));
    assert!(b.is_complete());
    assert_eq!(*b.unit(0), UnitState::Done(Outcome::Failed { code: Some(1), stderr: b"nope".to_vec() }));
    assert_eq!(*b.unit(1), UnitState::Done(Outcome::Succeeded { stdout: b"yes".to_vec() }));
}

#[test]
fn started_event_on_running_unit_reports_nothing() {
    let mut b = Batch::new(vec![task("a", "true")]);
    b.start_all();
    assert!(!b.apply(0, UnitEvent::Started));
    assert_eq!(*b.unit(0), UnitState::Running);
}

#[test]
fn poll_interval_is_one_second() {
    assert_eq!(POLL_INTERVAL_MS, 1000);
}
