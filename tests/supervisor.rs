use lockhinter::supervisor::{Action, Event, ExitOutcome, Phase, Report, Supervisor};

/// A session manager and a locker that answer every action, as a real run would.
struct World {
    hint: bool,
    hint_writes: Vec<bool>,
    spawns: usize,
    outcome: ExitOutcome,
    stdout: Vec<String>,
}

fn exited(code: i32) -> ExitOutcome {
    ExitOutcome { code: Some(code), signaled: false }
}

fn killed() -> ExitOutcome {
    ExitOutcome { code: None, signaled: true }
}

/// Runs a supervisor to its end and returns the exit status and the world it left.
fn drive(check: bool, force: bool, hint: bool, outcome: ExitOutcome) -> (u8, World) {
    let mut world = World { hint, hint_writes: Vec::new(), spawns: 0, outcome, stdout: Vec::new() };
    let mut sup = Supervisor::new(check, force);
    let mut event = Event::ServiceFound;
    loop {
        match sup.step(event) {
            Action::ResolveSession => event = Event::SessionFound,
            Action::ReadState => event = Event::StateRead(world.hint),
            Action::SpawnLocker => {
                world.spawns += 1;
                event = Event::Spawned;
            }
            Action::SetHint(v) => {
                world.hint = v;
                world.hint_writes.push(v);
                event = Event::HintWritten;
            }
            Action::AwaitChild => event = Event::ChildExited(world.outcome),
            Action::Finish { status, report } => {
                if let Some(line) = report.stdout_line() {
                    world.stdout.push(line.to_string());
                }
                assert!(sup.is_finished());
                return (status, world);
            }
        }
    }
}

#[test]
fn check_mode_reports_true_and_exits_one() {
    let (status, world) = drive(true, false, true, exited(0));
    assert_eq!(status, 1);
    assert_eq!(world.stdout, vec!["TRUE".to_string()]);
    assert_eq!(world.spawns, 0);
    assert!(world.hint_writes.is_empty());
}

#[test]
fn check_mode_reports_false_and_exits_zero() {
    let (status, world) = drive(true, false, false, exited(0));
    assert_eq!(status, 0);
    assert_eq!(world.stdout, vec!["FALSE".to_string()]);
    assert_eq!(world.spawns, 0);
    assert!(world.hint_writes.is_empty());
}

#[test]
fn clean_exit_sets_then_clears_the_hint() {
    let (status, world) = drive(false, false, false, exited(0));
    assert_eq!(status, 0);
    assert_eq!(world.spawns, 1);
    assert_eq!(world.hint_writes, vec![true, false]);
    assert!(!world.hint);
    assert!(world.stdout.is_empty());
}

#[test]
fn nonzero_exit_leaves_the_hint_set() {
    let (status, world) = drive(false, false, false, exited(2));
    assert_eq!(status, 0);
    assert_eq!(world.spawns, 1);
    assert_eq!(world.hint_writes, vec![true]);
    assert!(world.hint);
}

#[test]
fn signal_leaves_the_hint_set() {
    let (status, world) = drive(false, false, false, killed());
    assert_eq!(status, 0);
    assert_eq!(world.hint_writes, vec![true]);
    assert!(world.hint);
}

#[test]
fn already_locked_without_force_is_refused() {
    let (status, world) = drive(false, false, true, exited(0));
    assert_eq!(status, 1);
    assert_eq!(world.spawns, 0);
    assert!(world.hint_writes.is_empty());
    assert!(world.hint);
    assert_eq!(world.stdout, vec!["This session already has LockedHint set.".to_string()]);
}

#[test]
fn refusal_repeats_without_change() {
    let mut hint = true;
    for _ in 0..3 {
        let (status, world) = drive(false, false, hint, exited(0));
        assert_eq!(status, 1);
        assert_eq!(world.spawns, 0);
        assert!(world.hint_writes.is_empty());
        hint = world.hint;
        assert!(hint);
    }
}

#[test]
fn force_runs_over_an_asserted_hint() {
    let (status, world) = drive(false, true, true, exited(0));
    assert_eq!(status, 0);
    assert_eq!(world.spawns, 1);
    assert_eq!(world.hint_writes, vec![true, false]);
    assert!(!world.hint);
}

#[test]
fn force_still_keeps_the_hint_on_failure() {
    let (status, world) = drive(false, true, true, exited(1));
    assert_eq!(status, 0);
    assert_eq!(world.spawns, 1);
    assert_eq!(world.hint_writes, vec![true]);
    assert!(world.hint);
}

#[test]
fn check_mode_with_force_never_spawns() {
    let (status, world) = drive(true, true, true, exited(0));
    assert_eq!(status, 1);
    assert_eq!(world.spawns, 0);
    assert!(world.hint_writes.is_empty());
}

#[test]
fn missing_service_fails() {
    let mut sup = Supervisor::new(false, false);
    assert_eq!(sup.step(Event::Failed), Action::Finish { status: 1, report: Report::Silent });
    assert_eq!(sup.phase, Phase::Finished);
    assert_eq!(sup.step(Event::ServiceFound), Action::Finish { status: 1, report: Report::Silent });
}

#[test]
fn spawn_failure_writes_no_hint() {
    let mut sup = Supervisor::new(false, false);
    assert_eq!(sup.step(Event::ServiceFound), Action::ResolveSession);
    assert_eq!(sup.step(Event::SessionFound), Action::ReadState);
    assert_eq!(sup.step(Event::StateRead(false)), Action::SpawnLocker);
    assert_eq!(sup.step(Event::Failed), Action::Finish { status: 1, report: Report::Silent });
}

#[test]
fn failed_assert_or_wait_or_clear_never_clears() {
    for failing_step in 0..3 {
        let mut sup = Supervisor::new(false, false);
        sup.step(Event::ServiceFound);
        sup.step(Event::SessionFound);
        sup.step(Event::StateRead(false));
        assert_eq!(sup.step(Event::Spawned), Action::SetHint(true));
        if failing_step == 0 {
            assert_eq!(sup.step(Event::Failed), Action::Finish { status: 1, report: Report::Silent });
            continue;
        }
        assert_eq!(sup.step(Event::HintWritten), Action::AwaitChild);
        if failing_step == 1 {
            assert_eq!(sup.step(Event::Failed), Action::Finish { status: 1, report: Report::Silent });
            continue;
        }
        assert_eq!(sup.step(Event::ChildExited(exited(0))), Action::SetHint(false));
        assert_eq!(sup.step(Event::Failed), Action::Finish { status: 1, report: Report::Silent });
    }
}

#[test]
fn out_of_order_event_fails() {
    let mut sup = Supervisor::new(false, false);
    sup.step(Event::ServiceFound);
    assert_eq!(sup.step(Event::StateRead(false)), Action::Finish { status: 1, report: Report::Silent });
}

#[test]
fn exit_outcome_cleanliness() {
    assert!(exited(0).is_clean());
    assert!(!exited(2).is_clean());
    assert!(!killed().is_clean());
    assert!(!ExitOutcome { code: Some(0), signaled: true }.is_clean());
}
