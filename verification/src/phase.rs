//! The life of one item, and counting items by where they stand.

use crate::gate::Permit;
use crate::outcome::{TaskError, TaskErrorView};
use vstd::prelude::*;

verus! {

/// Where an item stands: `Pending → Admitted → Invoking → Succeeded | Failed`.
#[derive(Clone, Copy, Debug, PartialEq, Eq, Structural)]
pub enum Phase {
    /// Not yet let in.
    Pending,
    /// Holds a permit; the downloader has not been started for it yet.
    Admitted,
    /// Holds a permit; the downloader is running for it.
    Invoking,
    /// Done, permit returned; the downloader exited successfully.
    Succeeded,
    /// Done, permit returned; the downloader failed or could not be started.
    Failed,
}

impl Phase {
    /// Whether an item in this phase occupies a gate slot.
    pub open spec fn holds_permit(self) -> bool {
        self == Phase::Admitted || self == Phase::Invoking
    }

    /// Whether an item in this phase is done.
    pub open spec fn is_terminal(self) -> bool {
        self == Phase::Succeeded || self == Phase::Failed
    }

    /// Steps still ahead of an item in this phase.
    pub open spec fn steps_left(self) -> nat {
        match self {
            Phase::Pending => 3,
            Phase::Admitted => 2,
            Phase::Invoking => 1,
            Phase::Succeeded => 0,
            Phase::Failed => 0,
        }
    }
}

/// The state kept for one item; a permit is held from admission until the
/// invocation is over.
#[derive(Debug)]
pub enum TaskState {
    Pending,
    Admitted(Permit),
    Invoking(Permit),
    Succeeded,
    Failed(TaskError),
}

/// Mathematical value of a [`TaskState`].
pub enum TaskStateView {
    Pending,
    Admitted,
    Invoking,
    Succeeded,
    Failed(TaskErrorView),
}

impl TaskStateView {
    /// The phase this state belongs to.
    pub open spec fn phase(self) -> Phase {
        match self {
            TaskStateView::Pending => Phase::Pending,
            TaskStateView::Admitted => Phase::Admitted,
            TaskStateView::Invoking => Phase::Invoking,
            TaskStateView::Succeeded => Phase::Succeeded,
            TaskStateView::Failed(_) => Phase::Failed,
        }
    }

    /// The state an item is left in by an invocation that came to `error`.
    pub open spec fn finished(error: Option<TaskErrorView>) -> TaskStateView {
        match error {
            None => TaskStateView::Succeeded,
            Some(e) => TaskStateView::Failed(e),
        }
    }
}

impl View for TaskState {
    type V = TaskStateView;

    open spec fn view(&self) -> TaskStateView {
        match self {
            TaskState::Pending => TaskStateView::Pending,
            TaskState::Admitted(_) => TaskStateView::Admitted,
            TaskState::Invoking(_) => TaskStateView::Invoking,
            TaskState::Succeeded => TaskStateView::Succeeded,
            TaskState::Failed(e) => TaskStateView::Failed(e@),
        }
    }
}

impl DeepView for TaskState {
    type V = TaskStateView;

    open spec fn deep_view(&self) -> TaskStateView {
        self@
    }
}

impl TaskState {
    /// The phase this state belongs to.
    pub fn phase(&self) -> (p: Phase)
        ensures
            p == self@.phase(),
    {
        match self {
            TaskState::Pending => Phase::Pending,
            TaskState::Admitted(_) => Phase::Admitted,
            TaskState::Invoking(_) => Phase::Invoking,
            TaskState::Succeeded => Phase::Succeeded,
            TaskState::Failed(_) => Phase::Failed,
        }
    }
}

/// How many of `states` are in `phase`.
pub open spec fn count_in(states: Seq<TaskStateView>, phase: Phase) -> nat
    decreases states.len(),
{
    if states.len() == 0 {
        0
    } else {
        count_in(states.drop_last(), phase) + if states.last().phase() == phase {
            1nat
        } else {
            0nat
        }
    }
}

/// How many of `states` occupy a gate slot.
pub open spec fn holding(states: Seq<TaskStateView>) -> nat {
    count_in(states, Phase::Admitted) + count_in(states, Phase::Invoking)
}

/// How many of `states` are done.
pub open spec fn finished(states: Seq<TaskStateView>) -> nat {
    count_in(states, Phase::Succeeded) + count_in(states, Phase::Failed)
}

/// Steps still ahead of all of `states` together.
pub open spec fn steps_left(states: Seq<TaskStateView>) -> nat {
    3 * count_in(states, Phase::Pending) + 2 * count_in(states, Phase::Admitted) + count_in(
        states,
        Phase::Invoking,
    )
}

/// Whether some state is in `phase`.
pub open spec fn some_in(states: Seq<TaskStateView>, phase: Phase) -> bool {
    exists|i: int| 0 <= i < states.len() && (#[trigger] states[i]).phase() == phase
}

/// Whether `i` is the first index whose state is in `phase`.
pub open spec fn first_in(states: Seq<TaskStateView>, phase: Phase, i: int) -> bool {
    &&& 0 <= i < states.len()
    &&& states[i].phase() == phase
    &&& forall|j: int| 0 <= j < i ==> (#[trigger] states[j]).phase() != phase
}

/// Every state is in exactly one of the five phases.
pub proof fn lemma_counts_sum(states: Seq<TaskStateView>)
    ensures
        count_in(states, Phase::Pending) + holding(states) + finished(states) == states.len(),
    decreases states.len(),
{
    if states.len() > 0 {
        lemma_counts_sum(states.drop_last());
    }
}

/// Nothing is counted exactly when no state is in the phase.
pub proof fn lemma_count_zero(states: Seq<TaskStateView>, phase: Phase)
    ensures
        count_in(states, phase) == 0 <==> !some_in(states, phase),
    decreases states.len(),
{
    if states.len() > 0 {
        let before = states.drop_last();
        lemma_count_zero(before, phase);
        if some_in(before, phase) {
            let i = choose|i: int| 0 <= i < before.len() && (#[trigger] before[i]).phase() == phase;
            assert(states[i].phase() == phase);
        }
        if some_in(states, phase) && states.last().phase() != phase {
            let i = choose|i: int| 0 <= i < states.len() && (#[trigger] states[i]).phase() == phase;
            assert(before[i].phase() == phase);
        }
        if states.last().phase() == phase {
            assert(states[states.len() - 1].phase() == phase);
        }
    }
}

/// Replacing one state moves one unit from its old phase's count to the new
/// phase's count.
pub proof fn lemma_count_update(
    states: Seq<TaskStateView>,
    i: int,
    state: TaskStateView,
    phase: Phase,
)
    requires
        0 <= i < states.len(),
    ensures
        count_in(states.update(i, state), phase) + (if states[i].phase() == phase {
            1nat
        } else {
            0nat
        }) == count_in(states, phase) + (if state.phase() == phase {
            1nat
        } else {
            0nat
        }),
    decreases states.len(),
{
    let after = states.update(i, state);
    if i == states.len() - 1 {
        assert(after.drop_last() =~= states.drop_last());
    } else {
        lemma_count_update(states.drop_last(), i, state, phase);
        assert(after.drop_last() =~= states.drop_last().update(i, state));
    }
}

/// The counts of all five phases after one state is replaced.
pub proof fn lemma_counts_update(states: Seq<TaskStateView>, i: int, state: TaskStateView)
    requires
        0 <= i < states.len(),
    ensures
        forall|phase: Phase|
            #[trigger] count_in(states.update(i, state), phase) + (if states[i].phase() == phase {
                1nat
            } else {
                0nat
            }) == count_in(states, phase) + (if state.phase() == phase {
                1nat
            } else {
                0nat
            }),
{
    assert forall|phase: Phase|
        #[trigger] count_in(states.update(i, state), phase) + (if states[i].phase() == phase {
            1nat
        } else {
            0nat
        }) == count_in(states, phase) + (if state.phase() == phase {
            1nat
        } else {
            0nat
        }) by {
        lemma_count_update(states, i, state, phase);
    }
}

/// Replacing one state changes the steps ahead by the difference between the
/// two phases.
pub proof fn lemma_steps_left_update(states: Seq<TaskStateView>, i: int, state: TaskStateView)
    requires
        0 <= i < states.len(),
    ensures
        steps_left(states.update(i, state)) + states[i].phase().steps_left() == steps_left(states)
            + state.phase().steps_left(),
{
    lemma_count_update(states, i, state, Phase::Pending);
    lemma_count_update(states, i, state, Phase::Admitted);
    lemma_count_update(states, i, state, Phase::Invoking);
}

} // verus!
