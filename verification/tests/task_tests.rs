use std::str::FromStr;

use task_runner_challenge::report::{
    bar_report, baz_number, baz_report, decimal_string, draw_baz_number, foo_report,
};
use task_runner_challenge::task::TaskState::{Complete, NotStarted, Started};
use task_runner_challenge::task::TaskType::{Bar, Baz, Foo};
use task_runner_challenge::task::{
    TaskConstants, TaskState, TaskStateConstants, TaskType, TaskWork,
};
use task_runner_challenge::task_state::start_due_tasks;
use task_runner_challenge::text::str_equals;

#[test]
fn states_follow_one_path() {
    assert_eq!(NotStarted.transition_state(), Started);
    assert_eq!(Started.transition_state(), Complete);
    assert_eq!(Complete.transition_state(), Complete);
    for state in [NotStarted, Started, Complete] {
        assert_eq!(state.transition_state().transition_state(), Complete);
    }
}

#[test]
fn transition_task_keeps_kind_id_and_time() {
    assert_eq!(Foo(Some(4), 17, NotStarted).transition_task(), Foo(Some(4), 17, Started));
    assert_eq!(Bar(None, 0, Started).transition_task(), Bar(None, 0, Complete));
    assert_eq!(Baz(Some(9), 3, Complete).transition_task(), Baz(Some(9), 3, Complete));
}

#[test]
fn parameters_of_a_stored_task() {
    assert_eq!(Foo(Some(5), 100, Started).get_parameters_from_task(), (5, "STARTED"));
    assert_eq!(Bar(Some(1), 0, NotStarted).get_parameters_from_task(), (1, "NOTSTARTED"));
    assert_eq!(Baz(Some(u64::MAX), 0, Complete).get_parameters_from_task(), (u64::MAX, "COMPLETE"));
}

#[test]
fn parameters_after_a_transition_name_the_next_state() {
    let task = Baz(Some(3), 8, NotStarted).transition_task();
    assert_eq!(task.get_parameters_from_task(), (3, "STARTED"));
    let done = task.transition_task();
    assert_eq!(done.get_parameters_from_task(), (3, "COMPLETE"));
}

#[test]
fn state_names() {
    assert_eq!(TaskState::NOTSTARTED, "NOTSTARTED");
    assert_eq!(TaskState::STARTED, "STARTED");
    assert_eq!(TaskState::COMPLETE, "COMPLETE");
    let names: Vec<&str> = [NotStarted, Started, Complete].iter().map(|s| s.into()).collect();
    assert_eq!(names, vec!["NOTSTARTED", "STARTED", "COMPLETE"]);
}

#[test]
fn state_names_read_back() {
    for state in [NotStarted, Started, Complete] {
        let name: &str = (&state).into();
        assert_eq!(TaskState::from_str(name), Ok(state));
        assert_eq!(name.parse::<TaskState>(), Ok(state));
        assert_eq!(TaskState::from(name), state);
    }
}

#[test]
fn unknown_state_names_are_refused() {
    assert_eq!(TaskState::from_str("DONE"), Err(()));
    assert_eq!(TaskState::from_str("started"), Err(()));
    assert_eq!(TaskState::from_str(""), Err(()));
    assert_eq!(TaskState::from_str("STARTED "), Err(()));
}

#[test]
fn kind_names() {
    assert_eq!(TaskType::FOO, "FOO");
    assert_eq!(TaskType::BAR, "BAR");
    assert_eq!(TaskType::BAZ, "BAZ");
    let foo: &str = (&Foo(None, 0, NotStarted)).into();
    let bar: &str = (&Bar(Some(2), 5, Started)).into();
    let baz: &str = (&Baz(Some(3), 6, Complete)).into();
    assert_eq!((foo, bar, baz), ("FOO", "BAR", "BAZ"));
}

#[test]
fn new_tasks_from_requests() {
    assert_eq!(TaskType::new_task("FOO", 0), Some(Foo(None, 0, NotStarted)));
    assert_eq!(TaskType::new_task("BAR", 64072713903), Some(Bar(None, 64072713903, NotStarted)));
    assert_eq!(TaskType::new_task("BAZ", 7), Some(Baz(None, 7, NotStarted)));
    assert_eq!(TaskType::new_task("foo", 0), None);
    assert_eq!(TaskType::new_task("QUX", 0), None);
    assert_eq!(TaskType::new_task("", 0), None);
}

#[test]
fn rows_read_back_as_tasks() {
    for task in [
        Foo(Some(1), 10, NotStarted),
        Bar(Some(2), 0, Started),
        Baz(Some(3), 99, Complete),
        Foo(Some(u64::MAX), u64::MAX, Started),
    ] {
        let (kind, id, time, state) = task.insert_parameters();
        assert_eq!(TaskType::from_row(id.unwrap(), time, kind, state), Some(task));
        assert_eq!(
            TaskType::from_signed_row(id.unwrap() as i64, time as i64, kind, state),
            Some(task)
        );
    }
}

#[test]
fn insert_parameters_of_a_new_task() {
    assert_eq!(Foo(None, 12, NotStarted).insert_parameters(), ("FOO", None, 12, "NOTSTARTED"));
    assert_eq!(Baz(Some(8), 1, Started).insert_parameters(), ("BAZ", Some(8), 1, "STARTED"));
}

#[test]
fn malformed_rows_are_refused() {
    assert_eq!(TaskType::from_row(1, 2, "QUX", "NOTSTARTED"), None);
    assert_eq!(TaskType::from_row(1, 2, "FOO", "WAITING"), None);
    assert_eq!(TaskType::from_row(1, 2, "", ""), None);
}

#[test]
fn signed_rows_keep_the_bits() {
    assert_eq!(
        TaskType::from_signed_row(-1, 5, "BAR", "COMPLETE"),
        Some(Bar(Some(u64::MAX), 5, Complete))
    );
}

#[test]
fn due_tasks() {
    assert!(Foo(Some(1), 10, NotStarted).is_due(10));
    assert!(Foo(Some(1), 10, NotStarted).is_due(11));
    assert!(!Foo(Some(1), 10, NotStarted).is_due(9));
    assert!(!Bar(Some(1), 0, Started).is_due(100));
    assert!(!Baz(Some(1), 0, Complete).is_due(100));
}

#[test]
fn started_tasks_are_never_due_again() {
    let task = Baz(Some(3), 5, NotStarted);
    assert!(task.is_due(5));
    let started = task.transition_task();
    let done = started.transition_task();
    for now in [0, 5, u64::MAX] {
        assert!(!started.is_due(now));
        assert!(!done.is_due(now));
    }
}

#[test]
fn starting_due_tasks() {
    let candidates = vec![
        Foo(Some(1), 1000000, NotStarted),
        Foo(Some(2), 5, NotStarted),
        Baz(Some(3), 10, Started),
        Bar(Some(4), 10, NotStarted),
    ];
    assert_eq!(
        start_due_tasks(&candidates, 10),
        vec![Foo(Some(2), 5, Started), Bar(Some(4), 10, Started)]
    );
    assert_eq!(start_due_tasks(&candidates, 4), vec![]);
    assert_eq!(start_due_tasks(&vec![], 4), vec![]);
    let started = start_due_tasks(&candidates, 10);
    assert_eq!(start_due_tasks(&started, u64::MAX), vec![]);
}

#[test]
fn work_of_started_tasks() {
    assert_eq!(Foo(Some(7), 0, Started).work(), TaskWork::Foo { id: 7, delay_secs: 3 });
    assert_eq!(
        Bar(None, 0, Started).work(),
        TaskWork::Bar { url: "https://www.whattimeisitrightnow.com" }
    );
    assert_eq!(Baz(None, 0, Started).work(), TaskWork::Baz);
}

#[test]
fn report_lines() {
    assert_eq!(foo_report(1), "Foo 1");
    assert_eq!(foo_report(1234567890), "Foo 1234567890");
    assert_eq!(baz_report(0), "Baz 0");
    assert_eq!(baz_report(343), "Baz 343");
    assert_eq!(bar_report(200), "200");
    assert_eq!(bar_report(u16::MAX), "65535");
}

#[test]
fn decimal_strings_match_std() {
    for n in [0u64, 1, 9, 10, 99, 100, 101, 4096, 1000000, u64::MAX - 1, u64::MAX] {
        assert_eq!(decimal_string(n), n.to_string());
    }
}

#[test]
fn baz_numbers_stay_in_range() {
    assert_eq!(baz_number(0), 0);
    assert_eq!(baz_number(343), 343);
    assert_eq!(baz_number(344), 0);
    assert_eq!(baz_number(345), 1);
    assert_eq!(baz_number(u64::MAX), u64::MAX % 344);
    for _ in 0..1000 {
        assert!(draw_baz_number() <= 343);
    }
}

#[test]
fn string_equality() {
    assert!(str_equals("STARTED", "STARTED"));
    assert!(!str_equals("STARTED", "STARTE"));
    assert!(!str_equals("STARTED", "STARTEd"));
    assert!(str_equals("", ""));
    assert!(str_equals("héllo", "héllo"));
    assert!(!str_equals("héllo", "hello"));
}
