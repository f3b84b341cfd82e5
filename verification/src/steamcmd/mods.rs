//! Installing a list of items whose invocations' results are known.

use crate::aggregate::{failures_of, verdict, AggregateResult};
use crate::invoker::Invocation;
use crate::item::Item;
use crate::orchestrator::{Action, Orchestrator, OrchestratorView};
use crate::outcome::{error_of, outcome_of, TaskOutcomeView};
use crate::phase::{lemma_steps_left_update, steps_left, Phase, TaskStateView};
use vstd::prelude::*;

verus! {

/// How many downloads run at once unless the caller says otherwise.
pub const MAX_CONCURRENT_DOWNLOADS: usize = 2;

/// The outcome of every item of `work`, each from its own invocation alone.
pub open spec fn outcomes_of(work: Seq<(Item, Invocation)>) -> Seq<TaskOutcomeView> {
    Seq::new(work.len(), |i: int| outcome_of(work[i].0@, work[i].1@))
}

/// The items of `work`, in order.
fn items_of(work: &Vec<(Item, Invocation)>) -> (items: Vec<Item>)
    ensures
        items.deep_view() == Seq::new(work@.len(), |i: int| work@[i].0@),
{
    let mut items: Vec<Item> = Vec::new();
    let mut i: usize = 0;
    while i < work.len()
        invariant
            i <= work.len(),
            items.len() == i,
            forall|j: int| 0 <= j < i ==> (#[trigger] items[j])@ == work@[j].0@,
        decreases work.len() - i,
    {
        items.push(work[i].0.clone());
        i = i + 1;
    }
    assert(items.deep_view() =~= Seq::new(work@.len(), |i: int| work@[i].0@));
    items
}

/// Whether every item that is done in `run` was left there by its own
/// invocation in `work`.
spec fn agrees(run: OrchestratorView, work: Seq<(Item, Invocation)>) -> bool {
    &&& run.items == Seq::new(work.len(), |i: int| work[i].0@)
    &&& forall|i: int|
        0 <= i < run.states.len() && (#[trigger] run.states[i]).phase().is_terminal()
            ==> run.states[i] == TaskStateView::finished(error_of(work[i].1@))
}

/// Runs the orchestration of `work` to its end under a gate of `cap` slots,
/// taking each step the orchestrator calls for and ending, whenever it has
/// to wait, the first running invocation with the result `work` holds for
/// it. Every item gets the outcome of its own invocation, whatever the others
/// came to, and the result holds every failure in item order.
pub fn install_all(work: Vec<(Item, Invocation)>, cap: usize) -> (r: AggregateResult)
    requires
        cap >= 1,
    ensures
        r@ == failures_of(outcomes_of(work@)),
{
    let mut run = Orchestrator::new(items_of(&work), cap);
    while !run.is_complete()
        invariant
            run.wf(),
            agrees(run@, work@),
        decreases steps_left(run@.states),
    {
        let ghost before = run@;
        match run.next_action() {
            Action::Invoke(i) => {
                proof {
                    lemma_steps_left_update(before.states, i as int, TaskStateView::Invoking);
                }
                let _ = run.invoke(i);
            },
            Action::Admit(i) => {
                proof {
                    lemma_steps_left_update(before.states, i as int, TaskStateView::Admitted);
                }
                let _ = run.admit_item(i);
            },
            Action::Wait => {
                match run.first_in_phase(Phase::Invoking) {
                    Some(i) => {
                        proof {
                            lemma_steps_left_update(
                                before.states,
                                i as int,
                                TaskStateView::finished(error_of(work@[i as int].1@)),
                            );
                        }
                        let _ = run.complete(i, work[i].1.clone());
                    },
                    None => {
                        assert(false);
                    },
                }
            },
            Action::Finish => {
                assert(false);
            },
        }
    }
    let result = run.result();
    assert(run@.outcomes() =~= outcomes_of(work@));
    result.unwrap()
}

/// Installs `mods` with at most [`MAX_CONCURRENT_DOWNLOADS`] downloads at a
/// time, given what each download came to: `Ok` when every one succeeded,
/// otherwise the message that reports the first one that failed.
pub fn install_mods(mods: Vec<(Item, Invocation)>) -> (r: Result<(), String>)
    ensures
        r.is_ok() == verdict(failures_of(outcomes_of(mods@))).is_ok(),
        r.is_err() ==> r.unwrap_err()@ == verdict(failures_of(outcomes_of(mods@))).unwrap_err(),
{
    install_all(mods, MAX_CONCURRENT_DOWNLOADS).into_result()
}

} // verus!
