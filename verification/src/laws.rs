//! What holds of every orchestration, whatever the items, the number of slots
//! and the order in which invocations end.

use crate::aggregate::failures_of;
use crate::invoker::InvocationView;
use crate::item::ItemView;
use crate::orchestrator::{Action, OrchestratorView};
use crate::outcome::{error_of, outcome_of, FailedItemView, TaskOutcomeView};
use crate::phase::{
    first_in, lemma_count_zero, lemma_counts_sum, lemma_counts_update, lemma_steps_left_update,
    some_in, steps_left, Phase, TaskStateView,
};
use vstd::prelude::*;

verus! {

/// The start is well-formed: with every item pending behind a fresh gate of
/// at least one slot, nothing runs and no permit is out.
pub proof fn law_initial_wf(items: Seq<ItemView>, cap: nat)
    requires
        cap >= 1,
    ensures
        OrchestratorView::initial(items, cap).wf(),
        OrchestratorView::initial(items, cap).invoking() == 0,
{
    let states = OrchestratorView::initial(items, cap).states;
    lemma_count_zero(states, Phase::Admitted);
    lemma_count_zero(states, Phase::Invoking);
    lemma_count_zero(states, Phase::Succeeded);
    lemma_count_zero(states, Phase::Failed);
    lemma_counts_sum(states);
}

/// Admitting a pending item while a slot is free keeps well-formedness.
pub proof fn law_admit_keeps_wf(run: OrchestratorView, i: int)
    requires
        run.wf(),
        run.refusal(i, Phase::Pending).is_none(),
    ensures
        run.after_admit(i).wf(),
{
    lemma_counts_update(run.states, i, TaskStateView::Admitted);
}

/// Starting an admitted item keeps well-formedness.
pub proof fn law_invoke_keeps_wf(run: OrchestratorView, i: int)
    requires
        run.wf(),
        run.refusal(i, Phase::Admitted).is_none(),
    ensures
        run.after_invoke(i).wf(),
{
    lemma_counts_update(run.states, i, TaskStateView::Invoking);
}

/// Ending an invocation keeps well-formedness, whatever it came to.
pub proof fn law_complete_keeps_wf(run: OrchestratorView, i: int, invocation: InvocationView)
    requires
        run.wf(),
        run.refusal(i, Phase::Invoking).is_none(),
    ensures
        run.after_complete(i, invocation).wf(),
{
    lemma_count_zero(run.states, Phase::Invoking);
    assert(run.states[i].phase() == Phase::Invoking);
    lemma_counts_update(run.states, i, TaskStateView::finished(error_of(invocation)));
}

/// In a well-formed orchestration no more invocations run than permits are
/// out, and no more permits are out than there are slots.
pub proof fn law_invocations_bounded(run: OrchestratorView)
    requires
        run.wf(),
    ensures
        run.invoking() <= run.gate.in_use <= run.gate.capacity,
{
}

/// Every permit handed out is still held or was taken back; once every item
/// is done, one permit per item was handed out, each was taken back, and
/// none is out.
pub proof fn law_permits_balanced(run: OrchestratorView)
    requires
        run.wf(),
    ensures
        run.gate.acquired == run.gate.released + run.gate.in_use,
        run.is_complete() ==> run.gate.acquired == run.items.len() && run.gate.released
            == run.items.len() && run.gate.in_use == 0,
{
    lemma_counts_sum(run.states);
    if run.is_complete() {
        lemma_count_zero(run.states, Phase::Pending);
        lemma_count_zero(run.states, Phase::Admitted);
        lemma_count_zero(run.states, Phase::Invoking);
    }
}

/// The caller is told to finish exactly when every item is done, and then
/// every item has its outcome: none is missing, and each belongs to its item.
pub proof fn law_finish_accounts_for_all(run: OrchestratorView)
    requires
        run.wf(),
    ensures
        run.calls_for(Action::Finish) <==> run.is_complete(),
        run.is_complete() ==> run.outcomes().len() == run.items.len(),
        run.is_complete() ==> forall|i: int|
            0 <= i < run.items.len() ==> run.outcome(i) == Some(#[trigger] run.outcomes()[i])
                && run.outcomes()[i].item() == run.items[i],
{
    if run.is_complete() {
        assert forall|i: int| 0 <= i < run.items.len() implies run.outcome(i) == Some(
            #[trigger] run.outcomes()[i],
        ) && run.outcomes()[i].item() == run.items[i] by {
            assert(run.states[i].phase().is_terminal());
        }
    }
}

/// While an item is not done the caller is never told to finish, and when it
/// is told to wait an invocation is running whose end will be reported.
pub proof fn law_no_early_finish(run: OrchestratorView, action: Action)
    requires
        run.wf(),
        run.calls_for(action),
        !run.is_complete(),
    ensures
        action != Action::Finish,
        action == Action::Wait ==> run.invoking() >= 1,
{
    lemma_count_zero(run.states, Phase::Invoking);
}

/// Among the items in a phase, up to any one of them, there is a first.
proof fn lemma_first_exists(states: Seq<TaskStateView>, phase: Phase, k: int)
    requires
        0 <= k < states.len(),
        states[k].phase() == phase,
    ensures
        exists|i: int| 0 <= i <= k && first_in(states, phase, i),
    decreases k,
{
    if forall|j: int| 0 <= j < k ==> (#[trigger] states[j]).phase() != phase {
        assert(first_in(states, phase, k));
    } else {
        let j = choose|j: int| 0 <= j < k && (#[trigger] states[j]).phase() == phase;
        lemma_first_exists(states, phase, j);
    }
}

/// An orchestration is never stuck: in every well-formed state some action
/// is called for.
pub proof fn law_some_action_called_for(run: OrchestratorView)
    requires
        run.wf(),
        run.states.len() <= usize::MAX,
    ensures
        exists|action: Action| run.calls_for(action),
{
    lemma_count_zero(run.states, Phase::Admitted);
    lemma_count_zero(run.states, Phase::Invoking);
    if some_in(run.states, Phase::Admitted) {
        let k = choose|k: int| 0 <= k < run.states.len() && (#[trigger] run.states[k]).phase() == Phase::Admitted;
        lemma_first_exists(run.states, Phase::Admitted, k);
        let i = choose|i: int| 0 <= i <= k && first_in(run.states, Phase::Admitted, i);
        assert(run.calls_for(Action::Invoke(i as usize)));
    } else if run.gate.has_free_slot() && some_in(run.states, Phase::Pending) {
        let k = choose|k: int| 0 <= k < run.states.len() && (#[trigger] run.states[k]).phase() == Phase::Pending;
        lemma_first_exists(run.states, Phase::Pending, k);
        let i = choose|i: int| 0 <= i <= k && first_in(run.states, Phase::Pending, i);
        assert(run.calls_for(Action::Admit(i as usize)));
    } else if some_in(run.states, Phase::Invoking) {
        assert(run.calls_for(Action::Wait));
    } else {
        assert forall|i: int| 0 <= i < run.states.len() implies (#[trigger] run.states[i]).phase().is_terminal() by {
            let p = run.states[i].phase();
            assert(p != Phase::Pending && p != Phase::Admitted && p != Phase::Invoking);
        }
        assert(run.calls_for(Action::Finish));
    }
}

/// Every item starts three steps from its end and every step taken brings
/// one item one step nearer: an orchestration of `n` items is over after
/// exactly `3 * n` steps.
pub proof fn law_each_step_advances(run: OrchestratorView, i: int, invocation: InvocationView)
    requires
        run.wf(),
    ensures
        steps_left(OrchestratorView::initial(run.items, run.gate.capacity).states) == 3
            * run.items.len(),
        run.refusal(i, Phase::Pending).is_none() ==> steps_left(run.after_admit(i).states) + 1
            == steps_left(run.states),
        run.refusal(i, Phase::Admitted).is_none() ==> steps_left(run.after_invoke(i).states) + 1
            == steps_left(run.states),
        run.refusal(i, Phase::Invoking).is_none() ==> steps_left(
            run.after_complete(i, invocation).states,
        ) + 1 == steps_left(run.states),
        run.is_complete() <==> steps_left(run.states) == 0,
{
    let start = OrchestratorView::initial(run.items, run.gate.capacity).states;
    lemma_count_zero(start, Phase::Admitted);
    lemma_count_zero(start, Phase::Invoking);
    lemma_count_zero(start, Phase::Succeeded);
    lemma_count_zero(start, Phase::Failed);
    lemma_counts_sum(start);
    if 0 <= i < run.states.len() {
        lemma_steps_left_update(run.states, i, TaskStateView::Admitted);
        lemma_steps_left_update(run.states, i, TaskStateView::Invoking);
        lemma_steps_left_update(run.states, i, TaskStateView::finished(error_of(invocation)));
    }
    lemma_count_zero(run.states, Phase::Pending);
    lemma_count_zero(run.states, Phase::Admitted);
    lemma_count_zero(run.states, Phase::Invoking);
    if steps_left(run.states) == 0 {
        assert forall|j: int| 0 <= j < run.states.len() implies (#[trigger] run.states[j]).phase().is_terminal() by {
            let p = run.states[j].phase();
            assert(p != Phase::Pending && p != Phase::Admitted && p != Phase::Invoking);
        }
    }
}

/// At most one action is called for.
pub proof fn law_action_determined(run: OrchestratorView, a: Action, b: Action)
    requires
        run.wf(),
        run.calls_for(a),
        run.calls_for(b),
    ensures
        a == b,
{
    lemma_first_unique(run.states, Phase::Admitted);
    lemma_first_unique(run.states, Phase::Pending);
    lemma_first_is_some(run.states, Phase::Admitted);
    lemma_first_is_some(run.states, Phase::Pending);
    if run.is_complete() {
        lemma_terminal_excludes(run.states);
    }
}

/// A phase has at most one first item.
proof fn lemma_first_unique(states: Seq<TaskStateView>, phase: Phase)
    ensures
        forall|i: int, j: int|
            first_in(states, phase, i) && first_in(states, phase, j) ==> i == j,
{
    assert forall|i: int, j: int|
        first_in(states, phase, i) && first_in(states, phase, j) implies i == j by {
        if i < j {
            assert(states[i].phase() != phase);
        }
        if j < i {
            assert(states[j].phase() != phase);
        }
    }
}

/// A phase with a first item has an item.
proof fn lemma_first_is_some(states: Seq<TaskStateView>, phase: Phase)
    ensures
        forall|i: int| first_in(states, phase, i) ==> some_in(states, phase),
{
    assert forall|i: int| first_in(states, phase, i) implies some_in(states, phase) by {
        assert(states[i].phase() == phase);
    }
}

/// When every item is done, none is pending, admitted or invoking.
proof fn lemma_terminal_excludes(states: Seq<TaskStateView>)
    requires
        forall|i: int| 0 <= i < states.len() ==> (#[trigger] states[i]).phase().is_terminal(),
    ensures
        !some_in(states, Phase::Pending),
        !some_in(states, Phase::Admitted),
        !some_in(states, Phase::Invoking),
{
}

/// An item that could not be launched touches no other item: every other
/// item stays where it stands, the failed item's slot is free again, and
/// every other running invocation can still be brought to its end.
pub proof fn law_launch_failure_is_local(run: OrchestratorView, i: int, why: Seq<char>)
    requires
        run.wf(),
        run.refusal(i, Phase::Invoking).is_none(),
    ensures
        ({
            let after = run.after_complete(i, InvocationView::LaunchFailed(why));
            &&& after.wf()
            &&& after.items == run.items
            &&& after.phase(i) == Phase::Failed
            &&& after.gate.has_free_slot()
            &&& forall|j: int|
                0 <= j < run.states.len() && j != i ==> #[trigger] after.states[j] == run.states[j]
            &&& forall|j: int|
                j != i && run.refusal(j, Phase::Invoking).is_none() ==> after.refusal(
                    j,
                    Phase::Invoking,
                ).is_none()
        }),
{
    law_complete_keeps_wf(run, i, InvocationView::LaunchFailed(why));
    lemma_count_zero(run.states, Phase::Invoking);
    assert(run.states[i].phase() == Phase::Invoking);
}

/// The aggregate is success exactly when every item succeeded: one failure
/// anywhere makes it a failure.
pub proof fn law_success_iff_all_succeed(outcomes: Seq<TaskOutcomeView>)
    ensures
        failures_of(outcomes).len() == 0 <==> (forall|i: int|
            0 <= i < outcomes.len() ==> (#[trigger] outcomes[i]).is_success()),
    decreases outcomes.len(),
{
    if outcomes.len() > 0 {
        let before = outcomes.drop_last();
        law_success_iff_all_succeed(before);
        if failures_of(outcomes).len() == 0 {
            assert forall|i: int| 0 <= i < outcomes.len() implies (#[trigger] outcomes[i]).is_success() by {
                if i < before.len() {
                    assert(before[i].is_success());
                }
            }
        } else {
            if !outcomes.last().is_success() {
                assert(!outcomes[outcomes.len() - 1].is_success());
            } else {
                let i = choose|i: int| 0 <= i < before.len() && !(#[trigger] before[i]).is_success();
                assert(!outcomes[i].is_success());
            }
        }
    }
}

/// No failure is lost and none is made up: the aggregate holds an item with
/// its reason exactly when some outcome is that failure.
pub proof fn law_failures_retained(outcomes: Seq<TaskOutcomeView>, failed: FailedItemView)
    ensures
        failures_of(outcomes).contains(failed) <==> outcomes.contains(
            TaskOutcomeView::Failure(failed),
        ),
    decreases outcomes.len(),
{
    let wanted = TaskOutcomeView::Failure(failed);
    if outcomes.len() > 0 {
        let before = outcomes.drop_last();
        law_failures_retained(before, failed);
        if failures_of(outcomes).contains(failed) {
            let k = choose|k: int| 0 <= k < failures_of(outcomes).len() && failures_of(outcomes)[k] == failed;
            if k < failures_of(before).len() {
                assert(failures_of(before)[k] == failed);
                let i = choose|i: int| 0 <= i < before.len() && before[i] == wanted;
                assert(outcomes[i] == wanted);
            } else {
                assert(outcomes[outcomes.len() - 1] == wanted);
            }
        }
        if outcomes.contains(wanted) {
            let i = choose|i: int| 0 <= i < outcomes.len() && outcomes[i] == wanted;
            if i < before.len() {
                assert(before[i] == wanted);
                let k = choose|k: int| 0 <= k < failures_of(before).len() && failures_of(before)[k] == failed;
                assert(failures_of(outcomes)[k] == failed);
            } else {
                assert(failures_of(outcomes)[failures_of(outcomes).len() - 1] == failed);
            }
        }
    }
}

/// The failure that an overall failure reports first is that of the first
/// item that failed.
pub proof fn law_first_failure_leads(outcomes: Seq<TaskOutcomeView>, i: int)
    requires
        0 <= i < outcomes.len(),
        !outcomes[i].is_success(),
        forall|j: int| 0 <= j < i ==> (#[trigger] outcomes[j]).is_success(),
    ensures
        failures_of(outcomes).len() > 0,
        TaskOutcomeView::Failure(failures_of(outcomes)[0]) == outcomes[i],
    decreases outcomes.len(),
{
    let before = outcomes.drop_last();
    if i == outcomes.len() - 1 {
        law_success_iff_all_succeed(before);
        assert forall|j: int| 0 <= j < before.len() implies (#[trigger] before[j]).is_success() by {
            assert(outcomes[j].is_success());
        }
    } else {
        assert forall|j: int| 0 <= j < i implies (#[trigger] before[j]).is_success() by {
            assert(outcomes[j].is_success());
        }
        law_first_failure_leads(before, i);
    }
}

/// An item's outcome is decided by its own invocation and by nothing else.
pub proof fn law_outcome_is_own(
    run: OrchestratorView,
    i: int,
    invocation: InvocationView,
)
    requires
        run.wf(),
        run.refusal(i, Phase::Invoking).is_none(),
    ensures
        run.after_complete(i, invocation).outcome(i) == Some(
            outcome_of(run.items[i], invocation),
        ),
        forall|j: int|
            0 <= j < run.states.len() && j != i ==> #[trigger] run.after_complete(
                i,
                invocation,
            ).outcome(j) == run.outcome(j),
{
}

} // verus!
