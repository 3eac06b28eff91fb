use vstd::prelude::*;
use crate::task::Task;
use crate::unit::{UnitEvent, UnitState, advance, step};

verus! {

/// The abstract state of a batch: the tasks it runs, one unit per task, and
/// whether cancellation has been requested.
pub struct BatchModel {
    pub tasks: Seq<Task>,
    pub units: Seq<UnitState>,
    pub cancelled: bool,
}

impl BatchModel {
    /// One unit per task.
    pub open spec fn wf(self) -> bool {
        self.units.len() == self.tasks.len()
    }

    /// A freshly created batch over `tasks`: every unit pending, no
    /// cancellation requested.
    pub open spec fn fresh(tasks: Seq<Task>) -> BatchModel {
        BatchModel {
            tasks,
            units: Seq::new(tasks.len(), |i: int| UnitState::Pending),
            cancelled: false,
        }
    }

    /// Every unit has reached its terminal outcome.
    pub open spec fn complete(self) -> bool {
        forall|i: int| 0 <= i < self.units.len() ==> (#[trigger] self.units[i]).is_terminal_spec()
    }

    /// The batch after unit `i` reports event `e`; other units are untouched.
    pub open spec fn after(self, i: int, e: UnitEvent) -> BatchModel {
        if 0 <= i < self.units.len() {
            BatchModel {
                tasks: self.tasks,
                units: self.units.update(i, step(self.units[i], e)),
                cancelled: self.cancelled,
            }
        } else {
            self
        }
    }

    /// The batch once every unit has begun its race.
    pub open spec fn started(self) -> BatchModel {
        BatchModel {
            tasks: self.tasks,
            units: Seq::new(self.units.len(), |i: int| step(self.units[i], UnitEvent::Started)),
            cancelled: self.cancelled,
        }
    }

    /// The batch once cancellation is broadcast: every unit that has not
    /// finished is cancelled, finished ones keep their outcome, and the
    /// signal stays set.
    pub open spec fn cancel(self) -> BatchModel {
        BatchModel {
            tasks: self.tasks,
            units: Seq::new(
                self.units.len(),
                |i: int| step(self.units[i], UnitEvent::CancelObserved),
            ),
            cancelled: true,
        }
    }
}

/// `r` lists, in increasing order, exactly the indices of the units that
/// are pending in `units`.
pub open spec fn lists_pending(r: Seq<usize>, units: Seq<UnitState>) -> bool {
    &&& forall|k: int, l: int| 0 <= k < l < r.len() ==> r[k] < r[l]
    &&& forall|k: int| 0 <= k < r.len() ==> #[trigger] r[k] < units.len() && units[r[k] as int] is Pending
    &&& forall|i: int| 0 <= i < units.len() && (#[trigger] units[i] is Pending) ==> exists|k: int| 0 <= k < r.len() && r[k] == i
}

/// `r` lists, in increasing order, exactly the indices of the units that
/// have not reached their outcome in `units`.
pub open spec fn lists_unfinished(r: Seq<usize>, units: Seq<UnitState>) -> bool {
    &&& forall|k: int, l: int| 0 <= k < l < r.len() ==> r[k] < r[l]
    &&& forall|k: int| 0 <= k < r.len() ==> #[trigger] r[k] < units.len() && !units[r[k] as int].is_terminal_spec()
    &&& forall|i: int| 0 <= i < units.len() && !(#[trigger] units[i]).is_terminal_spec() ==> exists|k: int| 0 <= k < r.len() && r[k] == i
}

/// The supervisor's record of one batch: the tasks being run and the state
/// of the unit that runs each of them.
pub struct Batch {
    tasks: Vec<Task>,
    units: Vec<UnitState>,
    cancelled: bool,
}

impl View for Batch {
    type V = BatchModel;

    closed spec fn view(&self) -> BatchModel {
        BatchModel { tasks: self.tasks@, units: self.units@, cancelled: self.cancelled }
    }
}

impl Batch {
    /// Creates the batch for `tasks`, one pending unit per task.
    pub fn new(tasks: Vec<Task>) -> (r: Batch)
        ensures
            r@ == BatchModel::fresh(tasks@),
            r@.wf(),
    {
        let n = tasks.len();
        let mut units: Vec<UnitState> = Vec::new();
        let mut i: usize = 0;
        while i < n
            invariant
                n == tasks@.len(),
                i <= n,
                units@.len() == i,
                forall|j: int| 0 <= j < i ==> units@[j] == UnitState::Pending,
            decreases n - i,
        {
            units.push(UnitState::Pending);
            i = i + 1;
        }
        let r = Batch { tasks, units, cancelled: false };
        assert(r@.units =~= BatchModel::fresh(tasks@).units);
        r
    }

    /// The number of tasks in the batch.
    pub fn len(&self) -> (r: usize)
        requires
            self@.wf(),
        ensures
            r == self@.units.len(),
            r == self@.tasks.len(),
    {
        self.units.len()
    }

    /// The task that unit `i` runs.
    pub fn task(&self, i: usize) -> (r: &Task)
        requires
            self@.wf(),
            i < self@.tasks.len(),
        ensures
            *r == self@.tasks[i as int],
    {
        &self.tasks[i]
    }

    /// The current state of unit `i`.
    pub fn unit(&self, i: usize) -> (r: &UnitState)
        requires
            i < self@.units.len(),
        ensures
            *r == self@.units[i as int],
    {
        &self.units[i]
    }

    /// Whether cancellation has been requested for this batch.
    pub fn cancel_requested(&self) -> (r: bool)
        ensures
            r == self@.cancelled,
    {
        self.cancelled
    }

    /// Whether every unit has reached its terminal outcome.
    pub fn is_complete(&self) -> (r: bool)
        ensures
            r == self@.complete(),
    {
        let n = self.units.len();
        let mut i: usize = 0;
        while i < n
            invariant
                n == self@.units.len(),
                i <= n,
                forall|j: int| 0 <= j < i ==> (#[trigger] self@.units[j]).is_terminal_spec(),
            decreases n - i,
        {
            if !self.units[i].is_terminal() {
                return false;
            }
            i = i + 1;
        }
        true
    }

    /// Begins the race of every unit that is still pending, in input order,
    /// and returns their indices in that order: these are the units to launch.
    pub fn start_all(&mut self) -> (r: Vec<usize>)
        requires
            old(self)@.wf(),
        ensures
            final(self)@ == old(self)@.started(),
            final(self)@.wf(),
            lists_pending(r@, old(self)@.units),
    {
        let n = self.units.len();
        let mut r: Vec<usize> = Vec::new();
        let mut i: usize = 0;
        while i < n
            invariant
                n == self@.units.len(),
                n == old(self)@.units.len(),
                i <= n,
                self@.tasks == old(self)@.tasks,
                self@.cancelled == old(self)@.cancelled,
                forall|j: int| 0 <= j < i ==> self@.units[j] == step(old(self)@.units[j], UnitEvent::Started),
                forall|j: int| i <= j < n ==> self@.units[j] == old(self)@.units[j],
                forall|k: int, l: int| 0 <= k < l < r@.len() ==> r@[k] < r@[l],
                forall|k: int| 0 <= k < r@.len() ==> r@[k] < i && (old(self)@.units[r@[k] as int] is Pending),
                forall|j: int| 0 <= j < i && (old(self)@.units[j] is Pending) ==> exists|k: int| 0 <= k < r@.len() && r@[k] == j,
            decreases n - i,
        {
            let pending = match &self.units[i] {
                UnitState::Pending => true,
                _ => false,
            };
            if !self.units[i].is_terminal() {
                self.units[i] = advance(UnitEvent::Started);
            }
            let ghost r_before = r@;
            if pending {
                r.push(i);
                assert(r@[r@.len() - 1] == i);
            }
            assert forall|j: int| 0 <= j <= i && (old(self)@.units[j] is Pending) implies exists|k: int| 0 <= k < r@.len() && r@[k] == j by {
                if j < i {
                    let k = choose|k: int| 0 <= k < r_before.len() && r_before[k] == j;
                    assert(r@[k] == j);
                } else {
                    assert(r@[r@.len() - 1] == j);
                }
            }
            i = i + 1;
        }
        assert(self@.units =~= old(self)@.started().units);
        r
    }

    /// Records event `e` reported by unit `i`. Returns whether the unit has
    /// just reached its terminal outcome, which is then to be reported.
    pub fn apply(&mut self, i: usize, e: UnitEvent) -> (r: bool)
        requires
            old(self)@.wf(),
            i < old(self)@.units.len(),
        ensures
            final(self)@ == old(self)@.after(i as int, e),
            final(self)@.wf(),
            r == (!old(self)@.units[i as int].is_terminal_spec() && final(self)@.units[i as int].is_terminal_spec()),
    {
        if self.units[i].is_terminal() {
            assert(old(self)@.after(i as int, e).units =~= old(self)@.units);
            return false;
        }
        let next = advance(e);
        let done = next.is_terminal();
        self.units[i] = next;
        assert(self@.units =~= old(self)@.after(i as int, e).units);
        done
    }

    /// Broadcasts cancellation: every unit that has not finished is
    /// cancelled, and the indices of those units are returned in increasing
    /// order. Units that already finished keep their outcome.
    pub fn request_cancel(&mut self) -> (r: Vec<usize>)
        requires
            old(self)@.wf(),
        ensures
            final(self)@ == old(self)@.cancel(),
            final(self)@.wf(),
            lists_unfinished(r@, old(self)@.units),
    {
        self.cancelled = true;
        let n = self.units.len();
        let mut r: Vec<usize> = Vec::new();
        let mut i: usize = 0;
        while i < n
            invariant
                n == self@.units.len(),
                n == old(self)@.units.len(),
                i <= n,
                self@.tasks == old(self)@.tasks,
                self@.cancelled,
                forall|j: int| 0 <= j < i ==> self@.units[j] == step(old(self)@.units[j], UnitEvent::CancelObserved),
                forall|j: int| i <= j < n ==> self@.units[j] == old(self)@.units[j],
                forall|k: int, l: int| 0 <= k < l < r@.len() ==> r@[k] < r@[l],
                forall|k: int| 0 <= k < r@.len() ==> r@[k] < i && !old(self)@.units[r@[k] as int].is_terminal_spec(),
                forall|j: int| 0 <= j < i && !old(self)@.units[j].is_terminal_spec() ==> exists|k: int| 0 <= k < r@.len() && r@[k] == j,
            decreases n - i,
        {
            let ghost r_before = r@;
            if !self.units[i].is_terminal() {
                self.units[i] = advance(UnitEvent::CancelObserved);
                r.push(i);
                assert(r@[r@.len() - 1] == i);
            }
            assert forall|j: int| 0 <= j <= i && !old(self)@.units[j].is_terminal_spec() implies exists|k: int| 0 <= k < r@.len() && r@[k] == j by {
                if j < i {
                    let k = choose|k: int| 0 <= k < r_before.len() && r_before[k] == j;
                    assert(r@[k] == j);
                } else {
                    assert(r@[r@.len() - 1] == j);
                }
            }
            i = i + 1;
        }
        assert(self@.units =~= old(self)@.cancel().units);
        r
    }
}

} // verus!
