use hot_reload::loader::{LoadError, Probe};
use hot_reload::report::Report;
use hot_reload::supervisor::{Action, Awaiting, Event, Outcome, Phase, Supervisor, TICK_SECONDS};
use hot_reload::timestamp::Timestamp;

const PATH: &str = "build/libfoo.so";

fn silent(action: Action) -> Outcome {
    Outcome { report: Report::Silent, action }
}

fn at(secs: u64) -> Timestamp {
    Timestamp::from_parts(false, secs, 0)
}

/// A supervisor that has loaded a library and waits for the metadata read of
/// its first tick.
fn polling(bar: bool) -> Supervisor {
    let supervisor = Supervisor::new(PATH);
    let (supervisor, _) = supervisor.step(Event::Loaded(Probe::Resolved { bar }));
    let shown = if bar { Some(3) } else { None };
    let (supervisor, _) = supervisor.step(Event::Invoked { foo: 1, bar: shown });
    let (supervisor, _) = supervisor.step(Event::Slept);
    assert_eq!(supervisor.awaiting(), Awaiting::Stat);
    supervisor
}

/// One whole tick of a running supervisor that ends with the given read.
fn tick(supervisor: Supervisor, foo: i32, bar: Option<i32>, read: Option<Timestamp>) -> (Supervisor, Outcome) {
    let (supervisor, _) = supervisor.step(Event::Invoked { foo, bar });
    let (supervisor, _) = supervisor.step(Event::Slept);
    supervisor.step(Event::Stat(read))
}

#[test]
fn starts_by_loading_generation_zero() {
    let supervisor = Supervisor::new(PATH);
    assert_eq!(supervisor.path(), PATH);
    assert_eq!(supervisor.generation(), 0);
    assert_eq!(supervisor.phase(), Phase::Loading);
    assert_eq!(supervisor.awaiting(), Awaiting::Load);
    assert_eq!(supervisor.last_known_mtime(), None);
    assert!(supervisor.current().is_none());
    assert_eq!(supervisor.pending(), Action::Load { generation: 0 });
}

#[test]
fn tick_interval_is_one_second() {
    assert_eq!(TICK_SECONDS, 1);
}

#[test]
fn successful_load_starts_the_ticks() {
    let (supervisor, outcome) = Supervisor::new(PATH).step(Event::Loaded(Probe::Resolved { bar: true }));
    assert_eq!(outcome, silent(Action::Invoke { call_bar: true }));
    assert_eq!(supervisor.phase(), Phase::Running);
    let handle = supervisor.current().unwrap();
    assert_eq!(handle.path(), PATH);
    assert_eq!(handle.generation(), 0);
    assert!(handle.has_bar());
}

#[test]
fn unloadable_library_aborts_with_loader_failure() {
    let (supervisor, outcome) = Supervisor::new(PATH).step(Event::Loaded(Probe::Unloadable));
    assert_eq!(outcome, silent(Action::Abort(LoadError::LoaderFailure)));
    assert!(supervisor.current().is_none());
    assert_eq!(supervisor.phase(), Phase::Loading);
}

#[test]
fn library_without_foo_aborts_with_missing_required_symbol() {
    let (supervisor, outcome) = Supervisor::new(PATH).step(Event::Loaded(Probe::FooMissing));
    assert_eq!(outcome, silent(Action::Abort(LoadError::MissingRequiredSymbol)));
    assert!(supervisor.current().is_none());
}

#[test]
fn bar_is_not_called_where_it_is_absent() {
    let (supervisor, outcome) = Supervisor::new(PATH).step(Event::Loaded(Probe::Resolved { bar: false }));
    assert_eq!(outcome.action, Action::Invoke { call_bar: false });
    let (supervisor, outcome) = supervisor.step(Event::Invoked { foo: 1, bar: None });
    assert_eq!(outcome.report, Report::Tick { generation: 0, foo: 1, bar: None });
    assert_eq!(outcome.action, Action::Sleep { seconds: 1 });
    assert_eq!(supervisor.awaiting(), Awaiting::Sleep);
}

#[test]
fn bar_is_called_where_it_is_present() {
    let (supervisor, outcome) = Supervisor::new(PATH).step(Event::Loaded(Probe::Resolved { bar: true }));
    assert_eq!(outcome.action, Action::Invoke { call_bar: true });
    let (_, outcome) = supervisor.step(Event::Invoked { foo: 2, bar: Some(3) });
    assert_eq!(outcome.report, Report::Tick { generation: 0, foo: 2, bar: Some(3) });
}

#[test]
fn invocation_that_disagrees_with_the_handle_is_ignored() {
    let (supervisor, _) = Supervisor::new(PATH).step(Event::Loaded(Probe::Resolved { bar: false }));
    let (supervisor, outcome) = supervisor.step(Event::Invoked { foo: 1, bar: Some(9) });
    assert_eq!(outcome, silent(Action::Invoke { call_bar: false }));
    assert_eq!(supervisor.awaiting(), Awaiting::Invoke);

    let (supervisor, _) = Supervisor::new(PATH).step(Event::Loaded(Probe::Resolved { bar: true }));
    let (supervisor, outcome) = supervisor.step(Event::Invoked { foo: 1, bar: None });
    assert_eq!(outcome, silent(Action::Invoke { call_bar: true }));
    assert_eq!(supervisor.awaiting(), Awaiting::Invoke);
}

#[test]
fn event_that_does_not_fit_changes_nothing() {
    let (supervisor, outcome) = Supervisor::new(PATH).step(Event::Slept);
    assert_eq!(outcome, silent(Action::Load { generation: 0 }));
    assert_eq!(supervisor.awaiting(), Awaiting::Load);
    let (supervisor, outcome) = supervisor.step(Event::Stat(Some(at(5))));
    assert_eq!(outcome, silent(Action::Load { generation: 0 }));
    assert_eq!(supervisor.last_known_mtime(), None);

    let supervisor = polling(false);
    let (supervisor, outcome) = supervisor.step(Event::Released);
    assert_eq!(outcome, silent(Action::Stat));
    assert_eq!(supervisor.generation(), 0);
    let (supervisor, outcome) = supervisor.step(Event::Loaded(Probe::Unloadable));
    assert_eq!(outcome, silent(Action::Stat));
    assert!(supervisor.current().is_some());
}

#[test]
fn sleep_is_followed_by_a_metadata_read() {
    let (supervisor, _) = Supervisor::new(PATH).step(Event::Loaded(Probe::Resolved { bar: false }));
    let (supervisor, _) = supervisor.step(Event::Invoked { foo: 1, bar: None });
    let (supervisor, outcome) = supervisor.step(Event::Slept);
    assert_eq!(outcome, silent(Action::Stat));
    assert_eq!(supervisor.phase(), Phase::Running);
}

#[test]
fn first_observed_mtime_does_not_reload() {
    let (supervisor, outcome) = polling(false).step(Event::Stat(Some(at(1_700_000_000))));
    assert_eq!(outcome, silent(Action::Invoke { call_bar: false }));
    assert_eq!(supervisor.phase(), Phase::Running);
    assert_eq!(supervisor.last_known_mtime(), Some(at(1_700_000_000)));
    assert_eq!(supervisor.generation(), 0);
}

#[test]
fn first_observed_epoch_does_not_reload_and_is_remembered() {
    let (supervisor, outcome) = polling(true).step(Event::Stat(Some(Timestamp::epoch())));
    assert_eq!(outcome, silent(Action::Invoke { call_bar: true }));
    assert_eq!(supervisor.last_known_mtime(), Some(Timestamp::epoch()));
    assert_eq!(supervisor.phase(), Phase::Running);
}

#[test]
fn change_away_from_the_epoch_reloads() {
    let (supervisor, _) = polling(false).step(Event::Stat(Some(Timestamp::epoch())));
    let (supervisor, outcome) = tick(supervisor, 1, None, Some(at(10)));
    assert_eq!(outcome, Outcome { report: Report::Reloading, action: Action::Release });
    assert_eq!(supervisor.phase(), Phase::ReloadPending);
}

#[test]
fn change_to_the_epoch_reloads() {
    let (supervisor, _) = polling(false).step(Event::Stat(Some(at(10))));
    let (supervisor, outcome) = tick(supervisor, 1, None, Some(Timestamp::epoch()));
    assert_eq!(outcome.report, Report::Reloading);
    assert_eq!(supervisor.last_known_mtime(), Some(Timestamp::epoch()));
}

#[test]
fn unchanged_mtime_keeps_ticking() {
    let (mut supervisor, _) = polling(false).step(Event::Stat(Some(at(10))));
    for _ in 0..5 {
        let (next, outcome) = tick(supervisor, 1, None, Some(at(10)));
        assert_eq!(outcome, silent(Action::Invoke { call_bar: false }));
        assert_eq!(next.phase(), Phase::Running);
        assert_eq!(next.generation(), 0);
        supervisor = next;
    }
}

#[test]
fn touch_with_an_older_mtime_reloads_too() {
    let (supervisor, _) = polling(false).step(Event::Stat(Some(at(10))));
    let (_, outcome) = tick(supervisor, 1, None, Some(at(9)));
    assert_eq!(outcome.report, Report::Reloading);
}

#[test]
fn change_is_reloaded_exactly_once() {
    let (supervisor, _) = polling(false).step(Event::Stat(Some(at(10))));
    let (supervisor, outcome) = tick(supervisor, 1, None, Some(at(20)));
    assert_eq!(outcome, Outcome { report: Report::Reloading, action: Action::Release });
    assert_eq!(supervisor.phase(), Phase::ReloadPending);
    assert_eq!(supervisor.last_known_mtime(), Some(at(20)));
    assert_eq!(supervisor.generation(), 0);

    let (supervisor, outcome) = supervisor.step(Event::Released);
    assert_eq!(outcome, silent(Action::Load { generation: 1 }));
    assert_eq!(supervisor.phase(), Phase::Loading);
    assert!(supervisor.current().is_none());

    let (mut supervisor, outcome) = supervisor.step(Event::Loaded(Probe::Resolved { bar: false }));
    assert_eq!(outcome, silent(Action::Invoke { call_bar: false }));
    let mut reloads = 0;
    for _ in 0..10 {
        let (next, outcome) = tick(supervisor, 1, None, Some(at(20)));
        if outcome.report == Report::Reloading {
            reloads += 1;
        }
        assert_eq!(next.phase(), Phase::Running);
        supervisor = next;
    }
    assert_eq!(reloads, 0);
    assert_eq!(supervisor.generation(), 1);
}

#[test]
fn failed_read_keeps_the_known_mtime() {
    let (supervisor, _) = polling(false).step(Event::Stat(Some(at(10))));
    let (supervisor, outcome) = tick(supervisor, 1, None, None);
    assert_eq!(outcome, silent(Action::Invoke { call_bar: false }));
    assert_eq!(supervisor.last_known_mtime(), Some(at(10)));
    assert_eq!(supervisor.phase(), Phase::Running);
    assert!(supervisor.current().is_some());
}

#[test]
fn failed_first_read_keeps_the_sentinel() {
    let (supervisor, outcome) = polling(false).step(Event::Stat(None));
    assert_eq!(outcome, silent(Action::Invoke { call_bar: false }));
    assert_eq!(supervisor.last_known_mtime(), None);
    let (supervisor, outcome) = tick(supervisor, 1, None, Some(at(30)));
    assert_eq!(outcome.report, Report::Silent);
    assert_eq!(supervisor.last_known_mtime(), Some(at(30)));
}

#[test]
fn change_during_a_failed_read_is_found_later() {
    let (supervisor, _) = polling(false).step(Event::Stat(Some(at(10))));
    let (supervisor, _) = tick(supervisor, 1, None, None);
    let (supervisor, _) = tick(supervisor, 1, None, None);
    let (supervisor, outcome) = tick(supervisor, 1, None, Some(at(11)));
    assert_eq!(outcome, Outcome { report: Report::Reloading, action: Action::Release });
    assert_eq!(supervisor.phase(), Phase::ReloadPending);
    assert_eq!(supervisor.last_known_mtime(), Some(at(11)));
}

#[test]
fn superseded_library_is_not_called() {
    let (supervisor, _) = polling(true).step(Event::Stat(Some(at(10))));
    let (supervisor, _) = tick(supervisor, 1, Some(3), Some(at(20)));
    assert_eq!(supervisor.pending(), Action::Release);
    let (supervisor, outcome) = supervisor.step(Event::Invoked { foo: 1, bar: Some(3) });
    assert_eq!(outcome, silent(Action::Release));
    assert_eq!(supervisor.phase(), Phase::ReloadPending);
}

#[test]
fn failed_reload_aborts() {
    let (supervisor, _) = polling(false).step(Event::Stat(Some(at(10))));
    let (supervisor, _) = tick(supervisor, 1, None, Some(at(20)));
    let (supervisor, _) = supervisor.step(Event::Released);
    let (supervisor, outcome) = supervisor.step(Event::Loaded(Probe::Unloadable));
    assert_eq!(outcome, silent(Action::Abort(LoadError::LoaderFailure)));
    assert!(supervisor.current().is_none());
    assert_eq!(supervisor.generation(), 1);
}

#[test]
fn generation_has_room_far_from_the_limit() {
    let supervisor = polling(false);
    assert!(supervisor.within_limits(&Event::Released));
    let (supervisor, _) = supervisor.step(Event::Stat(Some(at(10))));
    let (supervisor, _) = tick(supervisor, 1, None, Some(at(20)));
    assert!(supervisor.within_limits(&Event::Released));
    assert!(supervisor.within_limits(&Event::Slept));
}

#[test]
fn reload_picks_up_a_new_bar() {
    let path = PATH;
    let mut printed: Vec<String> = Vec::new();
    let supervisor = Supervisor::new(path);

    // Library A: foo returns 1, no bar.
    let (mut supervisor, outcome) = supervisor.step(Event::Loaded(Probe::Resolved { bar: false }));
    assert_eq!(outcome.action, Action::Invoke { call_bar: false });
    let mut mtime = at(100);
    for round in 0..3 {
        if round == 2 {
            // The file is replaced by library B, with a newer mtime.
            mtime = at(200);
        }
        let (next, outcome) = supervisor.step(Event::Invoked { foo: 1, bar: None });
        printed.extend(outcome.report.lines(path));
        let (next, _) = next.step(Event::Slept);
        let (next, outcome) = next.step(Event::Stat(Some(mtime)));
        printed.extend(outcome.report.lines(path));
        supervisor = next;
    }
    assert_eq!(supervisor.pending(), Action::Release);
    let (supervisor, outcome) = supervisor.step(Event::Released);
    assert_eq!(outcome.action, Action::Load { generation: 1 });

    // Library B: foo returns 2, bar returns 3.
    let (mut supervisor, outcome) = supervisor.step(Event::Loaded(Probe::Resolved { bar: true }));
    assert_eq!(outcome.action, Action::Invoke { call_bar: true });
    for _ in 0..2 {
        let (next, outcome) = supervisor.step(Event::Invoked { foo: 2, bar: Some(3) });
        printed.extend(outcome.report.lines(path));
        let (next, _) = next.step(Event::Slept);
        let (next, outcome) = next.step(Event::Stat(Some(mtime)));
        printed.extend(outcome.report.lines(path));
        supervisor = next;
    }
    assert_eq!(
        printed,
        vec![
            "[0] foo() -> 1",
            "[0] bar() is not defined",
            "[0] foo() -> 1",
            "[0] bar() is not defined",
            "[0] foo() -> 1",
            "[0] bar() is not defined",
            "Reloading \"build/libfoo.so\"",
            "[1] foo() -> 2",
            "[1] bar() -> 3",
            "[1] foo() -> 2",
            "[1] bar() -> 3",
        ]
    );
    assert_eq!(supervisor.phase(), Phase::Running);
    assert_eq!(supervisor.generation(), 1);
}
