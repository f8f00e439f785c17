use vstd::prelude::*;

use crate::text::str_equals;

verus! {

pub type TaskId = u64;

pub type TaskTimeStamp = u64;

/// The names under which task states are stored and exchanged.
pub trait TaskStateConstants {
    const NOTSTARTED: &'static str;
    const STARTED: &'static str;
    const COMPLETE: &'static str;
}

impl TaskStateConstants for TaskState {
    const NOTSTARTED: &'static str = "NOTSTARTED";
    const STARTED: &'static str = "STARTED";
    const COMPLETE: &'static str = "COMPLETE";
}

/// Where a task stands: waiting for its time, running, or done.
#[derive(Clone, Copy, Debug, PartialEq, Eq, Structural)]
pub enum TaskState {
    NotStarted,
    Started,
    Complete,
}

/// The name of a state, as stored and as written in requests.
pub open spec fn state_name(state: TaskState) -> Seq<char> {
    match state {
        TaskState::NotStarted => "NOTSTARTED"@,
        TaskState::Started => "STARTED"@,
        TaskState::Complete => "COMPLETE"@,
    }
}

/// The state that a name stands for, if it names one.
pub open spec fn parse_state_name(name: Seq<char>) -> Result<TaskState, ()> {
    if name == "STARTED"@ {
        Ok(TaskState::Started)
    } else if name == "NOTSTARTED"@ {
        Ok(TaskState::NotStarted)
    } else if name == "COMPLETE"@ {
        Ok(TaskState::Complete)
    } else {
        Err(())
    }
}

/// The characters of the state names, and that no two of them are alike.
pub proof fn lemma_state_names()
    ensures
        "NOTSTARTED"@ =~= seq!['N', 'O', 'T', 'S', 'T', 'A', 'R', 'T', 'E', 'D'],
        "STARTED"@ =~= seq!['S', 'T', 'A', 'R', 'T', 'E', 'D'],
        "COMPLETE"@ =~= seq!['C', 'O', 'M', 'P', 'L', 'E', 'T', 'E'],
        "NOTSTARTED"@ != "STARTED"@,
        "NOTSTARTED"@ != "COMPLETE"@,
        "STARTED"@ != "COMPLETE"@,
{
    reveal_strlit("NOTSTARTED");
    reveal_strlit("STARTED");
    reveal_strlit("COMPLETE");
}

/// Reading back the name of a state gives the state: names and states match one to one.
pub proof fn lemma_state_name_round_trip(state: TaskState)
    ensures
        parse_state_name(state_name(state)) == Ok::<TaskState, ()>(state),
{
    lemma_state_names();
}

/// The name under which a state is stored; `FromStr` reads it back.
impl<'a> From<&'a TaskState> for &'static str {
    fn from(task_state: &'a TaskState) -> (name: &'static str) {
        match task_state {
            TaskState::Started => TaskState::STARTED,
            TaskState::NotStarted => TaskState::NOTSTARTED,
            TaskState::Complete => TaskState::COMPLETE,
        }
    }
}

impl<'a> vstd::std_specs::convert::FromSpecImpl<&'a TaskState> for &'static str {
    open spec fn obeys_from_spec() -> bool {
        true
    }

    open spec fn from_spec(task_state: &'a TaskState) -> &'static str {
        match task_state {
            TaskState::Started => "STARTED",
            TaskState::NotStarted => "NOTSTARTED",
            TaskState::Complete => "COMPLETE",
        }
    }
}

impl std::str::FromStr for TaskState {
    type Err = ();

    fn from_str(s: &str) -> (parsed: Result<Self, Self::Err>)
        ensures
            parsed == parse_state_name(s@),
    {
        if str_equals(s, TaskState::STARTED) {
            Ok(TaskState::Started)
        } else if str_equals(s, TaskState::NOTSTARTED) {
            Ok(TaskState::NotStarted)
        } else if str_equals(s, TaskState::COMPLETE) {
            Ok(TaskState::Complete)
        } else {
            Err(())
        }
    }
}

impl TaskState {
    /// The state that follows this one: each state has exactly one.
    pub open spec fn next(self) -> TaskState {
        match self {
            TaskState::NotStarted => TaskState::Started,
            TaskState::Started => TaskState::Complete,
            TaskState::Complete => TaskState::Complete,
        }
    }

    /// Moves the state one step: at every point there is only one way to go.
    pub fn transition_state(&self) -> (next: TaskState)
        ensures
            next == self.next(),
            *self == TaskState::NotStarted ==> next == TaskState::Started,
            *self == TaskState::Started ==> next == TaskState::Complete,
            *self == TaskState::Complete ==> next == TaskState::Complete,
    {
        match self {
            TaskState::NotStarted => TaskState::Started,
            TaskState::Started => TaskState::Complete,
            TaskState::Complete => TaskState::Complete,
        }
    }

    /// The state that a stored name stands for; the name must be one of the three.
    pub fn from(value: &str) -> (state: TaskState)
        requires
            parse_state_name(value@) is Ok,
        ensures
            parse_state_name(value@) == Ok::<TaskState, ()>(state),
    {
        proof {
            lemma_state_names();
        }
        if str_equals(value, TaskState::NOTSTARTED) {
            TaskState::NotStarted
        } else if str_equals(value, TaskState::STARTED) {
            TaskState::Started
        } else {
            TaskState::Complete
        }
    }
}

/// The names under which task kinds are stored and requested.
pub trait TaskConstants {
    const FOO: &'static str;
    const BAR: &'static str;
    const BAZ: &'static str;
}

impl TaskConstants for TaskType {
    const FOO: &'static str = "FOO";
    const BAR: &'static str = "BAR";
    const BAZ: &'static str = "BAZ";
}

/// A task of one of three kinds: its id once stored, the time at or after
/// which it is to run, and its state.
#[derive(Debug, Clone, Copy, PartialEq, Eq, Structural)]
pub enum TaskType {
    Foo(Option<TaskId>, TaskTimeStamp, TaskState),
    Bar(Option<TaskId>, TaskTimeStamp, TaskState),
    Baz(Option<TaskId>, TaskTimeStamp, TaskState),
}

/// The task of the kind that `name` names, with the given fields, if `name` names a kind.
pub open spec fn task_of(
    name: Seq<char>,
    id: Option<TaskId>,
    time: TaskTimeStamp,
    state: TaskState,
) -> Option<TaskType> {
    if name == "FOO"@ {
        Some(TaskType::Foo(id, time, state))
    } else if name == "BAR"@ {
        Some(TaskType::Bar(id, time, state))
    } else if name == "BAZ"@ {
        Some(TaskType::Baz(id, time, state))
    } else {
        None
    }
}

/// The characters of the kind names, and that no two of them are alike.
pub proof fn lemma_kind_names()
    ensures
        "FOO"@ =~= seq!['F', 'O', 'O'],
        "BAR"@ =~= seq!['B', 'A', 'R'],
        "BAZ"@ =~= seq!['B', 'A', 'Z'],
        "FOO"@ != "BAR"@,
        "FOO"@ != "BAZ"@,
        "BAR"@ != "BAZ"@,
{
    reveal_strlit("FOO");
    reveal_strlit("BAR");
    reveal_strlit("BAZ");
    assert("FOO"@[0] != "BAR"@[0]);
    assert("FOO"@[0] != "BAZ"@[0]);
    assert("BAR"@[2] != "BAZ"@[2]);
}

/// The name of a task's kind names that kind again: reading it back with any
/// id, time and state gives the task of the same kind with those fields.
pub proof fn lemma_kind_name_round_trip(
    task: TaskType,
    id: Option<TaskId>,
    time: TaskTimeStamp,
    state: TaskState,
)
    ensures
        task_of(task.kind_name(), id, time, state) == Some(
            task.with_state(state).with_id_and_time(id, time),
        ),
{
    lemma_kind_names();
}

/// Every state reaches `Complete` within two transitions and stays there.
pub proof fn lemma_states_end_complete(state: TaskState)
    ensures
        state.next().next() == TaskState::Complete,
        TaskState::Complete.next() == TaskState::Complete,
        state.next() != TaskState::NotStarted,
{
}

/// The path of the states: NotStarted is followed by Started, Started by
/// Complete, and Complete by itself.
pub proof fn lemma_state_path()
    ensures
        TaskState::NotStarted.next() == TaskState::Started,
        TaskState::Started.next() == TaskState::Complete,
        TaskState::Complete.next() == TaskState::Complete,
{
}

/// Putting a task in another state changes nothing else: the result has the
/// given state and the kind, id and time of the task.
pub proof fn lemma_with_state_keeps_task(task: TaskType, state: TaskState)
    ensures
        task.with_state(state).state() == state,
        task.with_state(state).id() == task.id(),
        task.with_state(state).time() == task.time(),
        task.with_state(state).kind_name() == task.kind_name(),
        (task.with_state(state) is Foo) == (task is Foo),
        (task.with_state(state) is Bar) == (task is Bar),
        (task.with_state(state) is Baz) == (task is Baz),
{
}

/// A transition moves a task one step along NotStarted, Started, Complete and
/// keeps its kind, id and time.
pub proof fn lemma_transition_keeps_task(task: TaskType)
    ensures
        task.with_state(task.state().next()).id() == task.id(),
        task.with_state(task.state().next()).time() == task.time(),
        task.with_state(task.state().next()).kind_name() == task.kind_name(),
        task.state() == TaskState::NotStarted ==> task.with_state(task.state().next()).state()
            == TaskState::Started,
        task.state() == TaskState::Started ==> task.with_state(task.state().next()).state()
            == TaskState::Complete,
        task.state() == TaskState::Complete ==> task.with_state(task.state().next()).state()
            == TaskState::Complete,
{
    lemma_with_state_keeps_task(task, task.state().next());
}

impl<'a> From<&'a TaskType> for &'static str {
    fn from(task_type: &'a TaskType) -> (name: &'static str) {
        match task_type {
            TaskType::Foo(_, _, _) => TaskType::FOO,
            TaskType::Bar(_, _, _) => TaskType::BAR,
            TaskType::Baz(_, _, _) => TaskType::BAZ,
        }
    }
}

impl<'a> vstd::std_specs::convert::FromSpecImpl<&'a TaskType> for &'static str {
    open spec fn obeys_from_spec() -> bool {
        true
    }

    open spec fn from_spec(task_type: &'a TaskType) -> &'static str {
        match task_type {
            TaskType::Foo(_, _, _) => "FOO",
            TaskType::Bar(_, _, _) => "BAR",
            TaskType::Baz(_, _, _) => "BAZ",
        }
    }
}

/// What running a started task amounts to, by its kind.
#[derive(Debug, Clone, Copy, PartialEq, Eq)]
pub enum TaskWork {
    /// Wait `delay_secs` seconds, then report the task's id.
    Foo { id: TaskId, delay_secs: u64 },
    /// Fetch `url` and report the status code of the answer.
    Bar { url: &'static str },
    /// Draw a number and report it.
    Baz,
}

impl TaskType {
    pub open spec fn id(self) -> Option<TaskId> {
        match self {
            TaskType::Foo(id, _, _) => id,
            TaskType::Bar(id, _, _) => id,
            TaskType::Baz(id, _, _) => id,
        }
    }

    pub open spec fn time(self) -> TaskTimeStamp {
        match self {
            TaskType::Foo(_, time, _) => time,
            TaskType::Bar(_, time, _) => time,
            TaskType::Baz(_, time, _) => time,
        }
    }

    pub open spec fn state(self) -> TaskState {
        match self {
            TaskType::Foo(_, _, state) => state,
            TaskType::Bar(_, _, state) => state,
            TaskType::Baz(_, _, state) => state,
        }
    }

    /// The name of the task's kind.
    pub open spec fn kind_name(self) -> Seq<char> {
        match self {
            TaskType::Foo(_, _, _) => "FOO"@,
            TaskType::Bar(_, _, _) => "BAR"@,
            TaskType::Baz(_, _, _) => "BAZ"@,
        }
    }

    /// The same task, of the same kind, id and time, in another state.
    pub open spec fn with_state(self, state: TaskState) -> TaskType {
        match self {
            TaskType::Foo(id, time, _) => TaskType::Foo(id, time, state),
            TaskType::Bar(id, time, _) => TaskType::Bar(id, time, state),
            TaskType::Baz(id, time, _) => TaskType::Baz(id, time, state),
        }
    }

    /// The same task, of the same kind and state, with another id and time.
    pub open spec fn with_id_and_time(self, id: Option<TaskId>, time: TaskTimeStamp) -> TaskType {
        match self {
            TaskType::Foo(_, _, state) => TaskType::Foo(id, time, state),
            TaskType::Bar(_, _, state) => TaskType::Bar(id, time, state),
            TaskType::Baz(_, _, state) => TaskType::Baz(id, time, state),
        }
    }

    /// Moves the task one step along its states; kind, id and time stay.
    pub fn transition_task(&self) -> (next: TaskType)
        ensures
            next == self.with_state(self.state().next()),
            next.id() == self.id(),
            next.time() == self.time(),
            next.kind_name() == self.kind_name(),
            (next is Foo) == (self is Foo),
            (next is Bar) == (self is Bar),
            (next is Baz) == (self is Baz),
            self.state() == TaskState::NotStarted ==> next.state() == TaskState::Started,
            self.state() == TaskState::Started ==> next.state() == TaskState::Complete,
            self.state() == TaskState::Complete ==> next.state() == TaskState::Complete,
    {
        match self {
            TaskType::Foo(id, time, state) => TaskType::Foo(*id, *time, state.transition_state()),
            TaskType::Bar(id, time, state) => TaskType::Bar(*id, *time, state.transition_state()),
            TaskType::Baz(id, time, state) => TaskType::Baz(*id, *time, state.transition_state()),
        }
    }

    /// The id of a stored task and the name of its state, as an update of the
    /// store takes them. Only a task that has an id can be updated.
    pub fn get_parameters_from_task(&self) -> (parameters: (TaskId, &'static str))
        requires
            self.id() is Some,
        ensures
            parameters.0 == self.id()->Some_0,
            parameters.1@ == state_name(self.state()),
    {
        match self {
            TaskType::Foo(Some(id), _, state) => (*id, state.into()),
            TaskType::Bar(Some(id), _, state) => (*id, state.into()),
            TaskType::Baz(Some(id), _, state) => (*id, state.into()),
            TaskType::Foo(None, _, state) => (0, state.into()),
            TaskType::Bar(None, _, state) => (0, state.into()),
            TaskType::Baz(None, _, state) => (0, state.into()),
        }
    }

    /// The task of the kind that `task_type` names, with the given id, time and
    /// state. `None` where `task_type` names no kind.
    pub fn from_kind_name(
        task_type: &str,
        id: Option<TaskId>,
        time: TaskTimeStamp,
        state: TaskState,
    ) -> (task: Option<TaskType>)
        ensures
            task == task_of(task_type@, id, time, state),
    {
        proof {
            lemma_kind_names();
        }
        if str_equals(task_type, TaskType::FOO) {
            Some(TaskType::Foo(id, time, state))
        } else if str_equals(task_type, TaskType::BAR) {
            Some(TaskType::Bar(id, time, state))
        } else if str_equals(task_type, TaskType::BAZ) {
            Some(TaskType::Baz(id, time, state))
        } else {
            None
        }
    }

    /// The new task that a request for kind `task_type` at `time` creates: it has no
    /// id yet and has not started. `None` where `task_type` names no kind.
    pub fn new_task(task_type: &str, time: TaskTimeStamp) -> (task: Option<TaskType>)
        ensures
            task == task_of(task_type@, None, time, TaskState::NotStarted),
    {
        TaskType::from_kind_name(task_type, None, time, TaskState::NotStarted)
    }

    /// What handling a started task consists of, by its kind. A Foo task needs
    /// its id, which it reports.
    pub fn work(&self) -> (work: TaskWork)
        requires
            self.state() == TaskState::Started,
            self is Foo ==> self.id() is Some,
        ensures
            self is Foo ==> work == (TaskWork::Foo { id: self.id()->Some_0, delay_secs: 3 }),
            self is Bar ==> work is Bar && work->url@ == "https://www.whattimeisitrightnow.com"@,
            self is Baz ==> work == TaskWork::Baz,
    {
        match self {
            TaskType::Foo(Some(id), _, _) => TaskWork::Foo { id: *id, delay_secs: 3 },
            TaskType::Foo(None, _, _) => TaskWork::Baz,
            TaskType::Bar(_, _, _) => TaskWork::Bar { url: "https://www.whattimeisitrightnow.com" },
            TaskType::Baz(_, _, _) => TaskWork::Baz,
        }
    }
}

} // verus!
