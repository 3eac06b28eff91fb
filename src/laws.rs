use vstd::prelude::*;
use crate::batch::BatchModel;
use crate::outcome::{ExitReport, Outcome, outcome_of_exit};
use crate::task::{Group, Task, TaskSet, tasks_or_empty};
use crate::unit::{UnitEvent, UnitState};

verus! {

/// The batch after the events `evs` are reported one after the other; each
/// event names the unit that reports it.
pub open spec fn replay(m: BatchModel, evs: Seq<(int, UnitEvent)>) -> BatchModel
    decreases evs.len(),
{
    if evs.len() == 0 {
        m
    } else {
        replay(m, evs.drop_last()).after(evs.last().0, evs.last().1)
    }
}

/// `order` names each index below `n` exactly once.
pub open spec fn is_order_of(order: Seq<int>, n: int) -> bool {
    &&& order.len() == n
    &&& forall|k: int| 0 <= k < n ==> 0 <= #[trigger] order[k] < n
    &&& forall|k: int, l: int| 0 <= k < l < n ==> order[k] != order[l]
    &&& forall|i: int| 0 <= i < n ==> #[trigger] order.contains(i)
}

/// Every command completing, in the order given by `order`, unit `i`
/// reporting `reports[i]`.
pub open spec fn completions(order: Seq<int>, reports: Seq<ExitReport>) -> Seq<(int, UnitEvent)> {
    Seq::new(order.len(), |k: int| (order[k], UnitEvent::Finished(reports[order[k]])))
}

proof fn lemma_completions_prefix(
    tasks: Seq<Task>,
    order: Seq<int>,
    reports: Seq<ExitReport>,
    k: int,
)
    requires
        is_order_of(order, tasks.len() as int),
        reports.len() == tasks.len(),
        0 <= k <= tasks.len(),
    ensures
        ({
            let m = replay(BatchModel::fresh(tasks).started(), completions(order, reports).take(k));
            &&& m.units.len() == tasks.len()
            &&& m.tasks == tasks
            &&& !m.cancelled
            &&& forall|j: int| 0 <= j < k ==> m.units[order[j]] == UnitState::Done(outcome_of_exit(reports[order[j]]))
            &&& forall|i: int| 0 <= i < tasks.len() && (forall|j: int| 0 <= j < k ==> order[j] != i) ==> m.units[i] == UnitState::Running
        }),
    decreases k,
{
    let s = BatchModel::fresh(tasks).started();
    let evs = completions(order, reports);
    if k == 0 {
        assert(evs.take(0).len() == 0);
    } else {
        lemma_completions_prefix(tasks, order, reports, k - 1);
        assert(evs.take(k).drop_last() =~= evs.take(k - 1));
        let p = replay(s, evs.take(k - 1));
        let u = order[k - 1];
        assert(evs.take(k).last() == (u, UnitEvent::Finished(reports[u])));
        assert(forall|j: int| 0 <= j < k - 1 ==> order[j] != u);
        assert(p.units[u] == UnitState::Running);
    }
}

/// With no cancellation, once every launched unit has reported its command's
/// exit, in whatever order they complete, the batch is complete and holds
/// exactly one outcome per task: the one its own exit status gives.
pub proof fn lemma_fan_out_complete(tasks: Seq<Task>, order: Seq<int>, reports: Seq<ExitReport>)
    requires
        is_order_of(order, tasks.len() as int),
        reports.len() == tasks.len(),
    ensures
        ({
            let m = replay(BatchModel::fresh(tasks).started(), completions(order, reports));
            &&& m.complete()
            &&& !m.cancelled
            &&& m.units.len() == tasks.len()
            &&& forall|i: int| 0 <= i < tasks.len() ==> m.units[i] == UnitState::Done(outcome_of_exit(reports[i]))
        }),
{
    let n = tasks.len() as int;
    let evs = completions(order, reports);
    lemma_completions_prefix(tasks, order, reports, n);
    assert(evs.take(n) =~= evs);
    let m = replay(BatchModel::fresh(tasks).started(), evs);
    assert forall|i: int| 0 <= i < n implies m.units[i] == UnitState::Done(outcome_of_exit(reports[i])) by {
        assert(order.contains(i));
        let k = choose|k: int| 0 <= k < order.len() && order[k] == i;
    }
}

/// A batch over no tasks is complete from the start and holds no outcome.
pub proof fn lemma_empty_batch(tasks: Seq<Task>)
    requires
        tasks.len() == 0,
    ensures
        BatchModel::fresh(tasks).complete(),
        BatchModel::fresh(tasks).started().complete(),
        BatchModel::fresh(tasks).units.len() == 0,
{
}

/// Broadcasting cancellation cancels every unit that has not finished, keeps
/// the outcome of every unit that has, completes the batch, and no event
/// reported afterwards changes any outcome.
pub proof fn lemma_cancel_broadcast(m: BatchModel, evs: Seq<(int, UnitEvent)>)
    ensures
        m.cancel().cancelled,
        m.cancel().complete(),
        m.cancel().units.len() == m.units.len(),
        forall|i: int| 0 <= i < m.units.len() && (#[trigger] m.units[i]).is_terminal_spec() ==> m.cancel().units[i] == m.units[i],
        forall|i: int| 0 <= i < m.units.len() && !(#[trigger] m.units[i]).is_terminal_spec() ==> m.cancel().units[i] == UnitState::Done(Outcome::Cancelled),
        replay(m.cancel(), evs) == m.cancel(),
    decreases evs.len(),
{
    let c = m.cancel();
    assert forall|i: int| 0 <= i < c.units.len() implies (#[trigger] c.units[i]).is_terminal_spec() by {}
    if evs.len() > 0 {
        lemma_cancel_broadcast(m, evs.drop_last());
        let (i, e) = evs.last();
        if 0 <= i < c.units.len() {
            assert(c.after(i, e).units =~= c.units);
        }
    }
}

/// What one unit reports changes no other unit and not the cancellation
/// flag; in particular a failing command neither ends the batch early nor
/// touches a sibling's outcome: the batch is complete afterwards only if
/// every other unit already was.
pub proof fn lemma_independence(m: BatchModel, i: int, e: UnitEvent)
    requires
        0 <= i < m.units.len(),
    ensures
        m.after(i, e).units.len() == m.units.len(),
        m.after(i, e).cancelled == m.cancelled,
        m.after(i, e).tasks == m.tasks,
        forall|j: int| 0 <= j < m.units.len() && j != i ==> m.after(i, e).units[j] == m.units[j],
        m.after(i, e).complete() ==> forall|j: int| 0 <= j < m.units.len() && j != i ==> (#[trigger] m.units[j]).is_terminal_spec(),
{
    let a = m.after(i, e);
    if a.complete() {
        assert forall|j: int| 0 <= j < m.units.len() && j != i implies (#[trigger] m.units[j]).is_terminal_spec() by {
            assert(a.units[j] == m.units[j]);
        }
    }
}

/// Task sets built from the same document hold the same tasks, with the same
/// names and commands, in the same order, in both groups.
pub proof fn lemma_load_deterministic(
    tasks: Option<Vec<Task>>,
    builds: Option<Vec<Task>>,
    a: TaskSet,
    b: TaskSet,
)
    requires
        a.group_spec(Group::Run) == tasks_or_empty(tasks),
        a.group_spec(Group::Build) == tasks_or_empty(builds),
        b.group_spec(Group::Run) == tasks_or_empty(tasks),
        b.group_spec(Group::Build) == tasks_or_empty(builds),
    ensures
        forall|g: Group| a.group_spec(g) == b.group_spec(g),
{
    assert forall|g: Group| a.group_spec(g) == b.group_spec(g) by {
        match g {
            Group::Run => {},
            Group::Build => {},
        }
    }
}

} // verus!
