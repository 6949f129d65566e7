use vstd::prelude::*;
use crate::supervisor::{Action, Event, Phase, Supervisor, initial, next};

verus! {

/// The state after a run from `s` has taken `events`, one after the other.
pub open spec fn run(s: Supervisor, events: Seq<Event>) -> Supervisor
    decreases events.len(),
{
    if events.len() == 0 {
        s
    } else {
        next(run(s, events.drop_last()), events.last()).0
    }
}

/// The action that a run from `s` takes in answer to `events[i]`.
pub open spec fn action_at(s: Supervisor, events: Seq<Event>, i: int) -> Action {
    next(run(s, events.take(i)), events[i]).1
}

/// A phase in which the hint has been asked to be asserted by this run.
pub open spec fn after_assert(p: Phase) -> bool {
    p == Phase::Asserting || p == Phase::Waiting || p == Phase::Clearing
}

/// The event answers a locker that exited by itself with code zero.
pub open spec fn is_clean_exit(e: Event) -> bool {
    match e {
        Event::ChildExited(o) => o.spec_is_clean(),
        _ => false,
    }
}

proof fn lemma_action_of_prefix(s: Supervisor, events: Seq<Event>, n: int, i: int)
    requires
        0 <= i < n <= events.len(),
    ensures
        action_at(s, events.take(n), i) == action_at(s, events, i),
{
    assert(events.take(n).take(i) =~= events.take(i));
}

proof fn lemma_run_keeps_mode(s: Supervisor, events: Seq<Event>)
    ensures
        run(s, events).check == s.check,
        run(s, events).force == s.force,
    decreases events.len(),
{
    if events.len() > 0 {
        lemma_run_keeps_mode(s, events.drop_last());
    }
}

proof fn lemma_asserted_before(s: Supervisor, events: Seq<Event>)
    requires
        s.phase == Phase::AwaitService,
    ensures
        after_assert(run(s, events).phase) ==> exists|i: int|
            0 <= i < events.len() && action_at(s, events, i) == Action::SetHint(true),
    decreases events.len(),
{
    if events.len() > 0 {
        let n = events.len() - 1;
        let p = events.drop_last();
        assert(events.take(n) =~= p);
        lemma_asserted_before(s, p);
        let sp = run(s, p);
        if after_assert(run(s, events).phase) {
            if after_assert(sp.phase) {
                let i = choose|i: int| 0 <= i < p.len() && action_at(s, p, i) == Action::SetHint(true);
                lemma_action_of_prefix(s, events, n, i);
            } else {
                assert(action_at(s, events, n) == Action::SetHint(true));
            }
        }
    }
}

/// The hint is cleared only by a run that asserted it before, and only in
/// answer to a locker that exited by itself with code zero. Every other end
/// of the locker, and every failed step, leaves the hint asserted.
pub proof fn lemma_clear_only_after_clean_exit(check: bool, force: bool, events: Seq<Event>, j: int)
    requires
        0 <= j < events.len(),
        action_at(initial(check, force), events, j) == Action::SetHint(false),
    ensures
        is_clean_exit(events[j]),
        exists|i: int|
            0 <= i < j && action_at(initial(check, force), events, i) == Action::SetHint(true),
{
    let s0 = initial(check, force);
    let p = events.take(j);
    assert(run(s0, p).phase == Phase::Waiting);
    lemma_asserted_before(s0, p);
    let i = choose|i: int| 0 <= i < p.len() && action_at(s0, p, i) == Action::SetHint(true);
    lemma_action_of_prefix(s0, events, j, i);
}

/// A run that waits for a locker and sees it exit cleanly asks to clear the hint.
pub proof fn lemma_clean_exit_clears(check: bool, force: bool, events: Seq<Event>, j: int)
    requires
        0 <= j < events.len(),
        run(initial(check, force), events.take(j)).phase == Phase::Waiting,
        is_clean_exit(events[j]),
    ensures
        action_at(initial(check, force), events, j) == Action::SetHint(false),
{
}

proof fn lemma_check_run_phase(force: bool, events: Seq<Event>)
    ensures
        run(initial(true, force), events).check,
        !after_assert(run(initial(true, force), events).phase),
        run(initial(true, force), events).phase != Phase::Spawning,
    decreases events.len(),
{
    if events.len() > 0 {
        lemma_check_run_phase(force, events.drop_last());
    }
}

/// In check mode no run starts the locker or writes the hint, whatever the
/// outside world answers.
pub proof fn lemma_check_mode_never_spawns(force: bool, events: Seq<Event>, j: int)
    requires
        0 <= j < events.len(),
    ensures
        action_at(initial(true, force), events, j) != Action::SpawnLocker,
        !(action_at(initial(true, force), events, j) is SetHint),
{
    lemma_check_run_phase(force, events.take(j));
}

/// What holds of each state of a run without force whose reads of the hint
/// all find it asserted.
pub open spec fn refused(s: Supervisor) -> bool {
    &&& !s.check
    &&& !s.force
    &&& (s.phase == Phase::AwaitService || s.phase == Phase::Resolving || s.phase
        == Phase::Reading || s.phase == Phase::Finished)
    &&& (s.phase == Phase::Finished ==> s.status == 1)
}

/// The hint reads as asserted each time it is read.
pub open spec fn reads_asserted(events: Seq<Event>) -> bool {
    forall|k: int| 0 <= k < events.len() && #[trigger] events[k] is StateRead ==> events[k]->StateRead_0
}

proof fn lemma_refused_run(events: Seq<Event>)
    requires
        reads_asserted(events),
    ensures
        refused(run(initial(false, false), events)),
    decreases events.len(),
{
    if events.len() > 0 {
        let p = events.drop_last();
        assert forall|k: int| 0 <= k < p.len() && #[trigger] p[k] is StateRead implies p[k]->StateRead_0 by {
            assert(p[k] == events[k]);
        }
        lemma_refused_run(p);
        assert(events.last() == events[events.len() - 1]);
    }
}

/// Without force, a run that finds the hint already asserted starts no locker,
/// never writes the hint, and exits with status 1; so does every repetition,
/// since the hint it leaves is the one it found.
pub proof fn lemma_refusal_is_idempotent(events: Seq<Event>, j: int)
    requires
        0 <= j < events.len(),
        reads_asserted(events),
    ensures
        action_at(initial(false, false), events, j) != Action::SpawnLocker,
        !(action_at(initial(false, false), events, j) is SetHint),
        action_at(initial(false, false), events, j) is Finish ==> action_at(
            initial(false, false),
            events,
            j,
        )->Finish_status == 1,
{
    let p = events.take(j);
    assert forall|k: int| 0 <= k < p.len() && #[trigger] p[k] is StateRead implies p[k]->StateRead_0 by {
        assert(p[k] == events[k]);
    }
    lemma_refused_run(p);
    assert(events[j] is StateRead ==> events[j]->StateRead_0);
}

/// With force, a run that reads an asserted hint starts the locker all the
/// same; and it still clears the hint only after a clean exit.
pub proof fn lemma_force_proceeds(events: Seq<Event>, j: int)
    requires
        0 <= j < events.len(),
        run(initial(false, true), events.take(j)).phase == Phase::Reading,
        events[j] == Event::StateRead(true),
    ensures
        action_at(initial(false, true), events, j) == Action::SpawnLocker,
        forall|k: int|
            0 <= k < events.len() && #[trigger] action_at(initial(false, true), events, k)
                == Action::SetHint(false) ==> is_clean_exit(events[k]),
{
    lemma_run_keeps_mode(initial(false, true), events.take(j));
    assert forall|k: int|
        0 <= k < events.len() && #[trigger] action_at(initial(false, true), events, k)
            == Action::SetHint(false) implies is_clean_exit(events[k]) by {
        lemma_clear_only_after_clean_exit(false, true, events, k);
    }
}

/// How far a phase lies along a run; a run never goes back.
pub open spec fn rank(p: Phase) -> int {
    match p {
        Phase::AwaitService => 0,
        Phase::Resolving => 1,
        Phase::Reading => 2,
        Phase::Spawning => 3,
        Phase::Asserting => 4,
        Phase::Waiting => 5,
        Phase::Clearing => 6,
        Phase::Finished => 7,
    }
}

proof fn lemma_rank_grows(s: Supervisor, events: Seq<Event>, m: int, n: int)
    requires
        0 <= m <= n <= events.len(),
    ensures
        rank(run(s, events.take(m)).phase) <= rank(run(s, events.take(n)).phase),
    decreases n - m,
{
    if m < n {
        lemma_rank_grows(s, events, m, n - 1);
        assert(events.take(n).drop_last() =~= events.take(n - 1));
    }
}

/// A run writes the hint at most twice: once to assert it and, later, once
/// to clear it; it never clears before it asserted, and never writes either
/// value twice.
pub proof fn lemma_hint_written_at_most_once(
    check: bool,
    force: bool,
    events: Seq<Event>,
    i: int,
    j: int,
)
    requires
        0 <= i < j < events.len(),
        action_at(initial(check, force), events, i) is SetHint,
        action_at(initial(check, force), events, j) is SetHint,
    ensures
        action_at(initial(check, force), events, i) == Action::SetHint(true),
        action_at(initial(check, force), events, j) == Action::SetHint(false),
{
    let s0 = initial(check, force);
    assert(events.take(i + 1).drop_last() =~= events.take(i));
    lemma_rank_grows(s0, events, i + 1, j);
}

} // verus!
