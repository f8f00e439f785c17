use vstd::prelude::*;

use crate::task;
use crate::task::{TaskId, TaskState, TaskTimeStamp, TaskType};

verus! {

/// The task that a stored row stands for: its kind name, id, time and state name.
/// `None` where a name names no kind or no state.
pub open spec fn stored_task(
    id: TaskId,
    time: TaskTimeStamp,
    kind: Seq<char>,
    state: Seq<char>,
) -> Option<TaskType> {
    match task::parse_state_name(state) {
        Ok(s) => task::task_of(kind, Some(id), time, s),
        Err(_) => None,
    }
}

/// The tasks among `candidates` that are due at `now`, in their order, each moved
/// to the started state.
pub open spec fn started_tasks(candidates: Seq<TaskType>, now: TaskTimeStamp) -> Seq<TaskType> {
    candidates.filter(due_at(now)).map_values(|t: TaskType| t.with_state(TaskState::Started))
}

/// Whether a task is due at `now`, as a predicate on tasks.
pub open spec fn due_at(now: TaskTimeStamp) -> spec_fn(TaskType) -> bool {
    |t: TaskType| t.due_at(now)
}

/// Of the tasks selected to run, those due at `now`, in their order, each moved
/// to the started state: the tasks that are handed out to run.
pub fn start_due_tasks(candidates: &Vec<TaskType>, now: TaskTimeStamp) -> (started: Vec<TaskType>)
    ensures
        started@ == started_tasks(candidates@, now),
{
    let mut started: Vec<TaskType> = Vec::new();
    let n = candidates.len();
    let mut i: usize = 0;
    while i < n
        invariant
            n == candidates@.len(),
            i <= n,
            started@ == started_tasks(candidates@.take(i as int), now),
        decreases n - i,
    {
        let task = candidates[i];
        let ghost before = candidates@.take(i as int);
        let ghost after = candidates@.take(i + 1);
        proof {
            assert(after.drop_last() =~= before);
            assert(after.last() == task);
            reveal(Seq::filter);
        }
        if task.is_due(now) {
            let next = task.transition_task();
            proof {
                assert(after.filter(due_at(now)) == before.filter(due_at(now)).push(task));
                assert(before.filter(due_at(now)).push(task).map_values(
                    |t: TaskType| t.with_state(TaskState::Started),
                ) =~= started_tasks(before, now).push(next));
            }
            started.push(next);
        } else {
            proof {
                assert(after.filter(due_at(now)) == before.filter(due_at(now)));
            }
        }
        i = i + 1;
    }
    proof {
        assert(candidates@.take(n as int) =~= candidates@);
    }
    started
}

impl TaskType {
    /// A task is due when it has not started and its time has come.
    pub open spec fn due_at(self, now: TaskTimeStamp) -> bool {
        self.state() == TaskState::NotStarted && self.time() <= now
    }

    /// The task after `steps` transitions.
    pub open spec fn after_steps(self, steps: nat) -> TaskType
        decreases steps,
    {
        if steps == 0 {
            self
        } else {
            let before = self.after_steps((steps - 1) as nat);
            before.with_state(before.state().next())
        }
    }

    /// The row under which a task is stored: its kind name, its id if it has one,
    /// its time and its state name.
    pub fn insert_parameters(&self) -> (row: (&'static str, Option<TaskId>, TaskTimeStamp, &'static str))
        ensures
            row.0@ == self.kind_name(),
            row.1 == self.id(),
            row.2 == self.time(),
            row.3@ == task::state_name(self.state()),
    {
        let kind: &'static str = self.into();
        match self {
            TaskType::Foo(id, time, state) => (kind, *id, *time, state.into()),
            TaskType::Bar(id, time, state) => (kind, *id, *time, state.into()),
            TaskType::Baz(id, time, state) => (kind, *id, *time, state.into()),
        }
    }

    /// The task that a row read back from the store holds. `None` where the
    /// kind name or the state name is not one of those the store writes.
    pub fn from_row(id: TaskId, time: TaskTimeStamp, task_type: &str, task_state: &str) -> (task:
        Option<TaskType>)
        ensures
            task == stored_task(id, time, task_type@, task_state@),
    {
        let state = match <TaskState as std::str::FromStr>::from_str(task_state) {
            Ok(state) => state,
            Err(_) => {
                return None;
            },
        };
        TaskType::from_kind_name(task_type, Some(id), time, state)
    }

    /// As `from_row`, for a row whose id and time come back as signed integers;
    /// they are taken as unsigned with the same bits.
    pub fn from_signed_row(id: i64, time: i64, task_type: &str, task_state: &str) -> (task:
        Option<TaskType>)
        ensures
            task == stored_task(id as u64, time as u64, task_type@, task_state@),
    {
        TaskType::from_row(id as u64, time as u64, task_type, task_state)
    }

    /// Whether the task is due at `now`.
    pub fn is_due(&self, now: TaskTimeStamp) -> (due: bool)
        ensures
            due == self.due_at(now),
            due == (self.state() == TaskState::NotStarted && self.time() <= now),
    {
        match self {
            TaskType::Foo(_, time, TaskState::NotStarted) => *time <= now,
            TaskType::Bar(_, time, TaskState::NotStarted) => *time <= now,
            TaskType::Baz(_, time, TaskState::NotStarted) => *time <= now,
            _ => false,
        }
    }
}

/// A stored task reads back as itself: the row that `insert_parameters` gives for
/// a task with an id, read back with `from_row`, is the task.
pub proof fn lemma_row_round_trip(task: TaskType)
    requires
        task.id() is Some,
    ensures
        stored_task(task.id()->Some_0, task.time(), task.kind_name(), task::state_name(task.state()))
            == Some(task),
{
    task::lemma_state_name_round_trip(task.state());
    task::lemma_kind_names();
}

/// The same through a store that keeps ids and times as signed integers: a value
/// taken to `i64` and back keeps its bits, so the row read back with
/// `from_signed_row` is the task again.
pub proof fn lemma_signed_row_round_trip(task: TaskType)
    requires
        task.id() is Some,
    ensures
        stored_task(
            (task.id()->Some_0 as i64) as u64,
            (task.time() as i64) as u64,
            task.kind_name(),
            task::state_name(task.state()),
        ) == Some(task),
{
    let id = task.id()->Some_0;
    let time = task.time();
    assert((id as i64) as u64 == id) by (bit_vector);
    assert((time as i64) as u64 == time) by (bit_vector);
    lemma_row_round_trip(task);
}

/// When a task is due, for every kind alike: exactly when it has not started and
/// its time has come. So a task that has not started is due at its own time and
/// at every later time, and never before its time.
pub proof fn lemma_due_rule(task: TaskType, now: TaskTimeStamp, later: TaskTimeStamp)
    ensures
        task.due_at(now) == (task.state() == TaskState::NotStarted && task.time() <= now),
        task.due_at(now) && now <= later ==> task.due_at(later),
        task.state() == TaskState::NotStarted ==> task.due_at(task.time()),
        now < task.time() ==> !task.due_at(now),
        task.state() != TaskState::NotStarted ==> !task.due_at(now),
{
}

/// A task runs at most once: once it has taken a step from where it was, it is
/// never due again, at any time.
pub proof fn lemma_runs_once(task: TaskType, steps: nat, now: TaskTimeStamp)
    requires
        steps >= 1,
    ensures
        !task.after_steps(steps).due_at(now),
        task.after_steps(steps).state() != TaskState::NotStarted,
    decreases steps,
{
    if steps > 1 {
        lemma_runs_once(task, (steps - 1) as nat, now);
    }
    let before = task.after_steps((steps - 1) as nat);
    task::lemma_states_end_complete(before.state());
}

/// What is handed out to run: each started task is in the started state and so not
/// due again; each is a due candidate moved to that state; and every due candidate
/// is among them.
pub proof fn lemma_started_tasks(candidates: Seq<TaskType>, now: TaskTimeStamp)
    ensures
        started_tasks(candidates, now).len() <= candidates.len(),
        forall|i: int|
            0 <= i < started_tasks(candidates, now).len() ==> {
                let t = #[trigger] started_tasks(candidates, now)[i];
                &&& t.state() == TaskState::Started
                &&& forall|later: TaskTimeStamp| !t.due_at(later)
                &&& exists|j: int|
                    0 <= j < candidates.len() && candidates[j].due_at(now) && t
                        == candidates[j].with_state(TaskState::Started) && t.id()
                        == candidates[j].id() && t.time() == candidates[j].time()
                        && t.kind_name() == candidates[j].kind_name()
                        && candidates[j].state() == TaskState::NotStarted
                        && candidates[j].time() <= now
            },
        forall|j: int|
            0 <= j < candidates.len() && #[trigger] candidates[j].due_at(now)
                ==> started_tasks(candidates, now).contains(
                candidates[j].with_state(TaskState::Started),
            ),
{
    let kept = candidates.filter(due_at(now));
    candidates.lemma_filter_len(due_at(now));
    assert forall|i: int|
        0 <= i < started_tasks(candidates, now).len() implies {
        let t = #[trigger] started_tasks(candidates, now)[i];
        &&& t.state() == TaskState::Started
        &&& forall|later: TaskTimeStamp| !t.due_at(later)
        &&& exists|j: int|
            0 <= j < candidates.len() && candidates[j].due_at(now) && t
                == candidates[j].with_state(TaskState::Started) && t.id() == candidates[j].id()
                && t.time() == candidates[j].time() && t.kind_name() == candidates[j].kind_name()
                && candidates[j].state() == TaskState::NotStarted && candidates[j].time() <= now
    } by {
        candidates.lemma_filter_pred(due_at(now), i);
        assert(due_at(now)(kept[i]));
        candidates.lemma_filter_contains_rev(due_at(now), kept[i]);
        let j = choose|j: int| 0 <= j < candidates.len() && candidates[j] == kept[i];
        assert(candidates[j].due_at(now));
        task::lemma_with_state_keeps_task(candidates[j], TaskState::Started);
    }
    assert forall|j: int|
        0 <= j < candidates.len() && #[trigger] candidates[j].due_at(now)
            implies started_tasks(candidates, now).contains(
            candidates[j].with_state(TaskState::Started),
        ) by {
        assert(due_at(now)(candidates[j]));
        candidates.lemma_filter_contains(due_at(now), j);
        let k = choose|k: int| 0 <= k < kept.len() && kept[k] == candidates[j];
        assert(started_tasks(candidates, now)[k] == candidates[j].with_state(TaskState::Started));
    }
}

} // verus!
