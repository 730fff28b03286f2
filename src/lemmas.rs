use vstd::prelude::*;

use crate::plugin::{plugin_order, PLUGIN_COUNT};
use crate::startup::{
    action_of, fatal_message, initial_progress, next_progress, performed, run_outcomes,
    startup_steps, Action, Outcome, Progress, Step, FAILURE_STATUS, STEP_COUNT,
};

verus! {

/// Over any series of reports, the steps performed with success are the
/// next ones of the startup sequence, in order, and a failed startup stays
/// as it is.
proof fn lemma_performed_follows_sequence(p: Progress, outs: Seq<Outcome>)
    requires
        p.completed <= STEP_COUNT,
    ensures
        p.completed <= run_outcomes(p, outs).completed <= STEP_COUNT,
        performed(p, outs) == startup_steps().subrange(
            p.completed as int,
            run_outcomes(p, outs).completed as int,
        ),
        p.failed ==> run_outcomes(p, outs) == p,
    decreases outs.len(),
{
    if outs.len() > 0 {
        let q = next_progress(p, outs[0]);
        let rest = outs.drop_first();
        lemma_performed_follows_sequence(q, rest);
        let r = run_outcomes(q, rest);
        assert(run_outcomes(p, outs) == r);
        if !p.failed && p.completed < STEP_COUNT && outs[0] == Outcome::Succeeded {
            assert(performed(p, outs) =~= startup_steps().subrange(
                p.completed as int,
                r.completed as int,
            ));
        } else {
            assert(performed(p, outs) =~= performed(q, rest));
        }
    } else {
        assert(performed(p, outs) =~= startup_steps().subrange(
            p.completed as int,
            p.completed as int,
        ));
    }
}

/// From a fresh startup, whatever the host reports, the first steps
/// performed register the plugins one at a time in the declared order, each
/// of the five distinct plugins exactly once, and no plugin is registered
/// after that; every step past the registrations comes only once all five
/// are registered.
pub proof fn lemma_plugins_registered_in_order(outs: Seq<Outcome>)
    ensures
        forall|i: int, j: int|
            0 <= i < j < PLUGIN_COUNT ==> plugin_order()[i] != plugin_order()[j],
        performed(initial_progress(), outs).len() <= STEP_COUNT,
        forall|k: int|
            0 <= k < performed(initial_progress(), outs).len() && k < PLUGIN_COUNT
                ==> #[trigger] performed(initial_progress(), outs)[k] == Step::RegisterPlugin(
                plugin_order()[k],
            ),
        forall|k: int|
            PLUGIN_COUNT <= k < performed(initial_progress(), outs).len()
                ==> !(#[trigger] performed(initial_progress(), outs)[k] is RegisterPlugin),
{
    lemma_performed_follows_sequence(initial_progress(), outs);
}

/// From a fresh startup, the event loop is requested, or has run, only
/// after the menu was built and then installed, and right after that.
pub proof fn lemma_menu_before_event_loop(outs: Seq<Outcome>)
    ensures
        action_of(run_outcomes(initial_progress(), outs)) == Action::Perform(Step::RunEventLoop)
            ==> performed(initial_progress(), outs).len() == STEP_COUNT - 1,
        forall|k: int|
            0 <= k < performed(initial_progress(), outs).len()
                && #[trigger] performed(initial_progress(), outs)[k] == Step::RunEventLoop
                ==> k == STEP_COUNT - 1,
        performed(initial_progress(), outs).len() >= STEP_COUNT - 1 ==> {
            &&& performed(initial_progress(), outs)[STEP_COUNT - 3] == Step::BuildMenu
            &&& performed(initial_progress(), outs)[STEP_COUNT - 2] == Step::InstallMenu
        },
{
    lemma_performed_follows_sequence(initial_progress(), outs);
}

/// Once building or installing the menu fails, the startup aborts: from
/// then on, whatever the host reports, the event loop is never requested
/// and no further step is performed.
pub proof fn lemma_menu_failure_stops_startup(p: Progress, rest: Seq<Outcome>)
    requires
        p.completed <= STEP_COUNT,
        action_of(p) == Action::Perform(Step::BuildMenu) || action_of(p) == Action::Perform(
            Step::InstallMenu,
        ),
    ensures
        forall|j: int|
            0 <= j <= rest.len() ==> action_of(
                #[trigger] run_outcomes(next_progress(p, Outcome::Failed), rest.take(j)),
            ) == (Action::Abort { status: FAILURE_STATUS }),
        performed(next_progress(p, Outcome::Failed), rest).len() == 0,
{
    let q = next_progress(p, Outcome::Failed);
    assert(q.failed);
    lemma_performed_follows_sequence(q, rest);
    assert forall|j: int| 0 <= j <= rest.len() implies action_of(
        #[trigger] run_outcomes(q, rest.take(j)),
    ) == (Action::Abort { status: FAILURE_STATUS }) by {
        lemma_performed_follows_sequence(q, rest.take(j));
    }
}

/// When the event loop fails to start, the startup aborts with a non-zero
/// exit status and a non-empty diagnostic, and stays aborted whatever the
/// host reports afterwards.
pub proof fn lemma_event_loop_failure_aborts(p: Progress, rest: Seq<Outcome>)
    requires
        p.completed <= STEP_COUNT,
        action_of(p) == Action::Perform(Step::RunEventLoop),
    ensures
        action_of(run_outcomes(next_progress(p, Outcome::Failed), rest)) == (Action::Abort {
            status: FAILURE_STATUS,
        }),
        FAILURE_STATUS != 0,
        fatal_message().len() > 0,
{
    reveal_strlit("error while running tauri application");
    lemma_performed_follows_sequence(next_progress(p, Outcome::Failed), rest);
}

} // verus!
