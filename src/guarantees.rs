use vstd::prelude::*;

use crate::error::PsqlServerError;
use crate::lifecycle::{
    accepts, initial, transition, wf, Action, Event, Phase, Tool, POLL_INTERVAL_MS, State,
    missing_tool_error,
};

verus! {

/// The state reached and the actions issued when the machine takes the
/// events in order, starting in `s`.
pub open spec fn run(s: State, events: Seq<Event>) -> (State, Seq<Action>)
    decreases events.len(),
{
    if events.len() == 0 {
        (s, Seq::empty())
    } else {
        let before = run(s, events.drop_last());
        let after = transition(before.0, events.last());
        (after.0, before.1.push(after.1))
    }
}

/// The total time, in milliseconds, that a sequence of actions sleeps.
pub open spec fn slept_ms(actions: Seq<Action>) -> nat
    decreases actions.len(),
{
    if actions.len() == 0 {
        0
    } else {
        slept_ms(actions.drop_last()) + match actions.last() {
            Action::Sleep(ms) => ms as nat,
            _ => 0,
        }
    }
}

/// The tools in the order they are looked up.
pub open spec fn tool_at(k: int) -> Tool {
    if k == 0 {
        Tool::Postgres
    } else if k == 1 {
        Tool::InitDb
    } else if k == 2 {
        Tool::CreateDb
    } else {
        Tool::PgIsReady
    }
}

/// Lookups in which the first `k` tools are found and the next one is not.
pub open spec fn found_then_missing(k: nat) -> Seq<Event> {
    Seq::new(k, |i: int| Event::Found(true)).push(Event::Found(false))
}

/// `n` rounds of polling in which the server is still running and not yet
/// ready: the exit check, the failed probe, and the sleep.
pub open spec fn unready_rounds(n: nat) -> Seq<Event>
    decreases n,
{
    if n == 0 {
        Seq::empty()
    } else {
        unready_rounds((n - 1) as nat) + seq![
            Event::ExitPolled(Ok(false)),
            Event::ToolExited(Ok(false)),
            Event::Done(Ok(())),
        ]
    }
}

/// The actions of `n` such rounds against `port`.
pub open spec fn unready_actions(port: u16, n: nat) -> Seq<Action>
    decreases n,
{
    if n == 0 {
        Seq::empty()
    } else {
        unready_actions(port, (n - 1) as nat) + seq![
            Action::ProbeReady(port),
            Action::Sleep(POLL_INTERVAL_MS),
            Action::CheckExited,
        ]
    }
}

/// Taking two sequences of events one after the other is taking their
/// concatenation.
pub proof fn lemma_run_append(s: State, a: Seq<Event>, b: Seq<Event>)
    ensures
        run(s, a + b).0 == run(run(s, a).0, b).0,
        run(s, a + b).1 == run(s, a).1 + run(run(s, a).0, b).1,
    decreases b.len(),
{
    if b.len() == 0 {
        assert(a + b =~= a);
        assert(run(s, a).1 + Seq::<Action>::empty() =~= run(s, a).1);
    } else {
        lemma_run_append(s, a, b.drop_last());
        assert((a + b).drop_last() =~= a + b.drop_last());
        assert((a + b).last() == b.last());
        let mid = run(s, a).0;
        assert(run(s, a).1 + run(mid, b.drop_last()).1.push(transition(
            run(mid, b.drop_last()).0,
            b.last(),
        ).1) =~= (run(s, a).1 + run(mid, b.drop_last()).1).push(transition(
            run(mid, b.drop_last()).0,
            b.last(),
        ).1));
    }
}

/// The time slept by two sequences of actions adds up.
pub proof fn lemma_slept_append(a: Seq<Action>, b: Seq<Action>)
    ensures
        slept_ms(a + b) == slept_ms(a) + slept_ms(b),
    decreases b.len(),
{
    if b.len() == 0 {
        assert(a + b =~= a);
    } else {
        lemma_slept_append(a, b.drop_last());
        assert((a + b).drop_last() =~= a + b.drop_last());
    }
}

/// Resources are released in reverse order of acquisition: the storage root
/// is removed only once no process runs in it; a construction reports failure,
/// and a teardown reports completion, only once nothing is held; a server is
/// reported ready, on its reserved port, only after a successful probe and
/// the creation of the workspace.
pub proof fn lemma_step_releases_in_order(s: State, e: Event)
    requires
        wf(s),
        accepts(s, e),
    ensures
        wf(transition(s, e).0),
        transition(s, e).1 is RemoveRoot ==> !transition(s, e).0.process_live
            && transition(s, e).0.root_created,
        (transition(s, e).1 is Failed || transition(s, e).1 is Released) ==> {
            &&& !transition(s, e).0.root_created
            &&& !transition(s, e).0.process_live
            &&& transition(s, e).0.phase == Phase::Finished
        },
        transition(s, e).1 is Ready ==> {
            &&& s.phase == Phase::CreatingWorkspace
            &&& transition(s, e).1 == Action::Ready(s.port)
            &&& transition(s, e).0.process_live
        },
        transition(s, e).1 is CreateWorkspace ==> s.phase == Phase::Probing,
        transition(s, e).1 is CreateRoot ==> s.phase == Phase::Locating(Tool::PgIsReady),
{
}

/// When a tool is missing, construction fails with that tool's error before
/// anything is allocated, and leaves nothing behind.
pub proof fn lemma_missing_tool_leaves_nothing(k: nat)
    requires
        k < 4,
    ensures
        ({
            let (s, actions) = run(initial().0, found_then_missing(k));
            &&& actions.len() == k + 1
            &&& actions.last() == Action::Failed(missing_tool_error(tool_at(k as int)))
            &&& forall|i: int| 0 <= i < k ==> actions[i] is Locate
            &&& s.phase == Phase::Finished
            &&& !s.root_created
            &&& !s.process_live
        }),
{
    let evs = found_then_missing(k);
    let s0 = initial().0;
    reveal_with_fuel(run, 6);
    assert(evs.drop_last() =~= Seq::new(k, |i: int| Event::Found(true)));
    if k == 0 {
        assert(evs.drop_last() =~= Seq::<Event>::empty());
    } else if k == 1 {
        assert(evs.drop_last().drop_last() =~= Seq::<Event>::empty());
    } else if k == 2 {
        assert(evs.drop_last().drop_last().drop_last() =~= Seq::<Event>::empty());
    } else {
        assert(evs.drop_last().drop_last().drop_last().drop_last() =~= Seq::<Event>::empty());
    }
}

/// When the init tool fails, the storage root is removed before the failure
/// is reported.
pub proof fn lemma_init_failure_removes_root(s: State)
    requires
        wf(s),
        s.phase == Phase::Initializing,
    ensures
        ({
            let (t, actions) = run(s, seq![Event::ToolExited(Ok(false)), Event::Done(Ok(()))]);
            &&& actions == seq![Action::RemoveRoot, Action::Failed(PsqlServerError::InitDbFailed)]
            &&& t.phase == Phase::Finished
            &&& !t.root_created
            &&& !t.process_live
        }),
{
    let evs = seq![Event::ToolExited(Ok(false)), Event::Done(Ok(()))];
    assert(evs.drop_last().drop_last() =~= Seq::<Event>::empty());
    reveal_with_fuel(run, 3);
    assert(run(s, evs).1 =~= seq![Action::RemoveRoot, Action::Failed(PsqlServerError::InitDbFailed)]);
}

/// Releasing a running server kills the process, waits for it to exit, and
/// only then removes the storage root.
pub proof fn lemma_release_tears_down(s: State)
    requires
        wf(s),
        s.phase == Phase::Running,
    ensures
        ({
            let (t, actions) = run(
                s,
                seq![Event::Release, Event::Done(Ok(())), Event::Done(Ok(())), Event::Done(Ok(()))],
            );
            &&& actions == seq![Action::Kill, Action::Reap, Action::RemoveRoot, Action::Released]
            &&& t.phase == Phase::Finished
            &&& !t.root_created
            &&& !t.process_live
        }),
{
    let evs = seq![Event::Release, Event::Done(Ok(())), Event::Done(Ok(())), Event::Done(Ok(()))];
    assert(evs.drop_last().drop_last().drop_last().drop_last() =~= Seq::<Event>::empty());
    reveal_with_fuel(run, 5);
    assert(run(s, evs).1 =~= seq![Action::Kill, Action::Reap, Action::RemoveRoot, Action::Released]);
}

/// Each probe that finds the server not yet ready costs one polling interval
/// of sleep and brings the machine back to the exit check: after `n` such
/// rounds it is where it started and has slept `n` intervals.
pub proof fn lemma_unready_rounds_sleep(s: State, n: nat)
    requires
        wf(s),
        s.phase == Phase::CheckingExit,
    ensures
        run(s, unready_rounds(n)).0 == s,
        run(s, unready_rounds(n)).1 == unready_actions(s.port, n),
        slept_ms(unready_actions(s.port, n)) == n * POLL_INTERVAL_MS,
    decreases n,
{
    if n > 0 {
        let m = (n - 1) as nat;
        lemma_unready_rounds_sleep(s, m);
        let round = seq![
            Event::ExitPolled(Ok(false)),
            Event::ToolExited(Ok(false)),
            Event::Done(Ok(())),
        ];
        let acts = seq![
            Action::ProbeReady(s.port),
            Action::Sleep(POLL_INTERVAL_MS),
            Action::CheckExited,
        ];
        lemma_run_append(s, unready_rounds(m), round);
        assert(round.drop_last().drop_last().drop_last() =~= Seq::<Event>::empty());
        reveal_with_fuel(run, 4);
        assert(run(s, round).1 =~= acts);
        lemma_slept_append(unready_actions(s.port, m), acts);
        assert(acts.drop_last().drop_last().drop_last() =~= Seq::<Action>::empty());
        reveal_with_fuel(slept_ms, 4);
    }
}

/// A server process that exits while being polled ends the polling at once:
/// no further probe runs, the storage root is removed and the server's
/// failure is reported.
pub proof fn lemma_exit_stops_polling(s: State)
    requires
        wf(s),
        s.phase == Phase::CheckingExit,
    ensures
        ({
            let (t, actions) = run(s, seq![Event::ExitPolled(Ok(true)), Event::Done(Ok(()))]);
            &&& actions == seq![Action::RemoveRoot, Action::Failed(PsqlServerError::PostgresFailed)]
            &&& t.phase == Phase::Finished
            &&& !t.root_created
            &&& !t.process_live
        }),
{
    let evs = seq![Event::ExitPolled(Ok(true)), Event::Done(Ok(()))];
    assert(evs.drop_last().drop_last() =~= Seq::<Event>::empty());
    reveal_with_fuel(run, 3);
    assert(run(s, evs).1 =~= seq![Action::RemoveRoot, Action::Failed(PsqlServerError::PostgresFailed)]);
}

} // verus!
