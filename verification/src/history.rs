//! What holds of a whole run, whatever it is told and in whatever order.

use crate::model::{
    action_at, awaited, lemma_step_keeps_consistency, next_action, next_run, run_after,
    run_consistent, RunView,
};
use crate::phase::{ActionView, EventView};
use vstd::prelude::*;

verus! {

/// The place of an action in the order of a run's work: submitting the
/// capture is first and announcing the artifact is fifth. `Halt` is no work
/// and has place 0.
pub open spec fn work_rank<S>(action: ActionView<S>) -> nat {
    match action {
        ActionView::SubmitCapture { .. } => 1,
        ActionView::AwaitCapture { .. } => 2,
        ActionView::GenerateLoad { .. } => 3,
        ActionView::ReportStats { .. } => 4,
        ActionView::Announce { .. } => 5,
        ActionView::Halt => 0,
    }
}

/// Whether the run asked for work with place `rank` when it was told the
/// event at position `at`.
pub open spec fn asked_for<S>(start: RunView, events: Seq<EventView<S>>, at: int, rank: nat) -> bool {
    &&& 0 <= at < events.len()
    &&& rank >= 1
    &&& action_at(start, events, at) matches Some(action) && work_rank(action) == rank
}

/// The state after one more event is the successor of the state before it.
pub proof fn lemma_run_after_one_more<S>(start: RunView, events: Seq<EventView<S>>, at: int)
    requires
        0 <= at < events.len(),
    ensures
        run_after(start, events.take(at + 1)) == next_run(
            run_after(start, events.take(at)),
            events[at],
        ),
{
    let longer = events.take(at + 1);
    assert(longer.drop_last() =~= events.take(at));
    assert(longer.last() == events[at]);
}

/// Work is asked for on entering the phase with the same place, and only
/// then.
pub proof fn lemma_work_enters_its_phase<S>(run: RunView, event: EventView<S>)
    ensures
        next_action(run, event) matches Some(action) ==> (work_rank(action) >= 1 ==> work_rank(
            action,
        ) == run.phase.rank() + 1 && next_run(run, event).phase.rank() == work_rank(action)),
        awaited(run.phase, event) && 1 <= next_run(run, event).phase.rank() <= 5 ==> (next_action(
            run,
            event,
        ) matches Some(action) && work_rank(action) == next_run(run, event).phase.rank()),
{
}

/// A run never falls back: the place of its phase only grows along the
/// events it is told.
pub proof fn lemma_phase_never_falls_back<S>(
    start: RunView,
    events: Seq<EventView<S>>,
    earlier: int,
    later: int,
)
    requires
        0 <= earlier <= later <= events.len(),
    ensures
        run_after(start, events.take(earlier)).phase.rank() <= run_after(
            start,
            events.take(later),
        ).phase.rank(),
    decreases later - earlier,
{
    if earlier < later {
        lemma_phase_never_falls_back(start, events, earlier, later - 1);
        lemma_run_after_one_more(start, events, later - 1);
    }
}

/// The configuration with which a run started is the one it ends with.
pub proof fn lemma_config_is_fixed<S>(start: RunView, events: Seq<EventView<S>>)
    ensures
        run_after(start, events).config == start.config,
    decreases events.len(),
{
    if events.len() > 0 {
        lemma_config_is_fixed(start, events.drop_last());
    }
}

/// A run that starts consistent stays consistent.
pub proof fn lemma_consistency_is_kept<S>(start: RunView, events: Seq<EventView<S>>)
    requires
        run_consistent(start),
    ensures
        run_consistent(run_after(start, events)),
    decreases events.len(),
{
    if events.len() > 0 {
        lemma_consistency_is_kept(start, events.drop_last());
        lemma_step_keeps_consistency(run_after(start, events.drop_last()), events.last());
    }
}

/// Once a run is over, nothing that it is told changes it, and it asks for
/// nothing more: after a failure no later phase runs.
pub proof fn lemma_over_is_over<S>(start: RunView, events: Seq<EventView<S>>)
    requires
        start.phase.is_final(),
    ensures
        run_after(start, events) == start,
        forall|at: int| 0 <= at < events.len() ==> #[trigger] action_at(start, events, at) is None,
    decreases events.len(),
{
    if events.len() > 0 {
        lemma_over_is_over(start, events.drop_last());
    }
    assert forall|at: int| 0 <= at < events.len() implies #[trigger] action_at(
        start,
        events,
        at,
    ) is None by {
        lemma_over_is_over(start, events.take(at));
    }
}

/// Work is asked for in order, and each kind at most once: of two pieces of
/// work, the one asked for later has the later place.
pub proof fn lemma_work_is_asked_in_order<S>(
    start: RunView,
    events: Seq<EventView<S>>,
    earlier: int,
    later: int,
    first: nat,
    second: nat,
)
    requires
        earlier < later,
        asked_for(start, events, earlier, first),
        asked_for(start, events, later, second),
    ensures
        first < second,
{
    lemma_work_enters_its_phase(run_after(start, events.take(earlier)), events[earlier]);
    lemma_work_enters_its_phase(run_after(start, events.take(later)), events[later]);
    lemma_run_after_one_more(start, events, earlier);
    lemma_phase_never_falls_back(start, events, earlier + 1, later);
}

/// A phase of a successful run that the run is in, and did not start in, was
/// entered at some event, from the phase just before it.
proof fn lemma_phase_was_entered<S>(start: RunView, events: Seq<EventView<S>>, upto: int, rank: nat)
    requires
        0 <= upto <= events.len(),
        start.phase.rank() < rank <= 6,
        run_after(start, events.take(upto)).phase.rank() == rank,
    ensures
        exists|at: int|
            0 <= at < upto && #[trigger] run_after(start, events.take(at)).phase.rank() + 1 == rank
                && run_after(start, events.take(at + 1)).phase.rank() == rank,
    decreases upto,
{
    if upto == 0 {
        assert(events.take(0) =~= Seq::<EventView<S>>::empty());
    } else {
        let before = run_after(start, events.take(upto - 1));
        lemma_run_after_one_more(start, events, upto - 1);
        if before.phase.rank() == rank {
            lemma_phase_was_entered(start, events, upto - 1, rank);
        } else {
            assert(run_after(start, events.take(upto - 1)).phase.rank() + 1 == rank);
        }
    }
}

/// No work is skipped: in a run that starts at the beginning, whatever is
/// asked for after the first piece of work was preceded by the piece of work
/// just before it, here the one with place `rank`. In particular load is
/// generated only after the capture was awaited, which was only after it was
/// submitted; and statistics are reported only after load was generated.
pub proof fn lemma_work_follows_its_predecessor<S>(
    start: RunView,
    events: Seq<EventView<S>>,
    at: int,
    rank: nat,
)
    requires
        start.phase is Init,
        rank >= 1,
        asked_for(start, events, at, rank + 1),
    ensures
        exists|before: int| before < at && #[trigger] asked_for(start, events, before, rank),
{
    lemma_work_enters_its_phase(run_after(start, events.take(at)), events[at]);
    lemma_phase_was_entered(start, events, at, rank);
    let before = choose|before: int|
        0 <= before < at && #[trigger] run_after(start, events.take(before)).phase.rank() + 1
            == rank && run_after(start, events.take(before + 1)).phase.rank() == rank;
    lemma_run_after_one_more(start, events, before);
    lemma_work_enters_its_phase(run_after(start, events.take(before)), events[before]);
    assert(asked_for(start, events, before, rank));
}

} // verus!
