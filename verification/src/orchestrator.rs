//! The task orchestrator as a state machine: it decides who is admitted,
//! what is run and when the work is over; its caller runs the downloader and
//! reports back what each invocation came to.

use crate::aggregate::{failures_of, AggregateResult};
use crate::gate::{Gate, GateView};
use crate::invoker::{
    download_args, download_args_spec, Invocation, InvocationView, WORKSHOP_APP_ID,
};
use crate::item::{Item, ItemView};
use crate::outcome::{
    classify, error_of, outcome_of, FailedItem, FailedItemView, TaskOutcome, TaskOutcomeView,
};
use crate::phase::{
    count_in, finished, first_in, holding, lemma_count_zero, lemma_counts_sum,
    lemma_counts_update, some_in, Phase, TaskState, TaskStateView,
};
use vstd::prelude::*;

verus! {

/// What the caller is to do next.
#[derive(Clone, Copy, Debug, PartialEq, Eq, Structural)]
pub enum Action {
    /// Start the downloader for this admitted item.
    Invoke(usize),
    /// Let this pending item in: it takes a slot.
    Admit(usize),
    /// Nothing can be started: wait for a running invocation to end.
    Wait,
    /// Every item is done.
    Finish,
}

/// Why a step was not taken.
#[derive(Clone, Copy, Debug, PartialEq, Eq, Structural)]
pub enum Refusal {
    /// The index names no item.
    NoSuchItem,
    /// The item is not in the phase the step starts from.
    WrongPhase,
    /// Every admission slot is taken.
    GateFull,
}

/// The orchestration of one list of items under one gate.
#[derive(Debug)]
pub struct Orchestrator {
    items: Vec<Item>,
    states: Vec<TaskState>,
    gate: Gate,
}

/// Mathematical value of an [`Orchestrator`].
pub struct OrchestratorView {
    pub items: Seq<ItemView>,
    pub states: Seq<TaskStateView>,
    pub gate: GateView,
}

impl OrchestratorView {
    /// One state per item, a gate of at least one slot, and that gate's
    /// counters agreeing with the states: as many permits out as items
    /// admitted or invoking, one handed out per item that left `Pending`, one
    /// taken back per item that is done.
    pub open spec fn wf(self) -> bool {
        &&& self.states.len() == self.items.len()
        &&& self.gate.wf()
        &&& self.gate.capacity >= 1
        &&& self.gate.in_use == holding(self.states)
        &&& self.gate.acquired + count_in(self.states, Phase::Pending) == self.states.len()
        &&& self.gate.released == finished(self.states)
    }

    /// Every item pending behind a fresh gate of `cap` slots.
    pub open spec fn initial(items: Seq<ItemView>, cap: nat) -> OrchestratorView {
        OrchestratorView {
            items,
            states: Seq::new(items.len(), |i: int| TaskStateView::Pending),
            gate: GateView::fresh(cap),
        }
    }

    /// Where item `i` stands.
    pub open spec fn phase(self, i: int) -> Phase
        recommends
            0 <= i < self.states.len(),
    {
        self.states[i].phase()
    }

    /// Invocations running at this moment.
    pub open spec fn invoking(self) -> nat {
        count_in(self.states, Phase::Invoking)
    }

    /// Whether every item has reached a terminal phase.
    pub open spec fn is_complete(self) -> bool {
        forall|i: int| 0 <= i < self.states.len() ==> (#[trigger] self.states[i]).phase().is_terminal()
    }

    /// The outcome of item `i`, once it is done.
    pub open spec fn outcome(self, i: int) -> Option<TaskOutcomeView>
        recommends
            0 <= i < self.states.len() == self.items.len(),
    {
        match self.states[i] {
            TaskStateView::Succeeded => Some(TaskOutcomeView::Success(self.items[i])),
            TaskStateView::Failed(error) => Some(
                TaskOutcomeView::Failure(FailedItemView { item: self.items[i], error }),
            ),
            _ => None,
        }
    }

    /// The outcomes of all items, in item order; meaningful once complete.
    pub open spec fn outcomes(self) -> Seq<TaskOutcomeView>
        recommends
            self.is_complete(),
    {
        Seq::new(self.states.len(), |i: int| self.outcome(i).unwrap())
    }

    /// Why a step on item `i` that starts from `from` cannot be taken, if it cannot.
    pub open spec fn refusal(self, i: int, from: Phase) -> Option<Refusal> {
        if !(0 <= i < self.states.len()) {
            Some(Refusal::NoSuchItem)
        } else if self.states[i].phase() != from {
            Some(Refusal::WrongPhase)
        } else if from == Phase::Pending && !self.gate.has_free_slot() {
            Some(Refusal::GateFull)
        } else {
            None
        }
    }

    /// Item `i` is let in and takes a slot.
    pub open spec fn after_admit(self, i: int) -> OrchestratorView {
        OrchestratorView {
            states: self.states.update(i, TaskStateView::Admitted),
            gate: self.gate.after_acquire(),
            ..self
        }
    }

    /// The downloader is started for item `i`.
    pub open spec fn after_invoke(self, i: int) -> OrchestratorView {
        OrchestratorView { states: self.states.update(i, TaskStateView::Invoking), ..self }
    }

    /// The invocation of item `i` is over: its permit goes back and its
    /// outcome is recorded.
    pub open spec fn after_complete(self, i: int, invocation: InvocationView) -> OrchestratorView {
        OrchestratorView {
            states: self.states.update(i, TaskStateView::finished(error_of(invocation))),
            gate: self.gate.after_release(),
            ..self
        }
    }

    /// Whether `action` is the one to take now. Admitted items are started
    /// first; then the first pending item is admitted if a slot is free;
    /// failing both, the caller waits while something runs, and is finished
    /// when nothing does.
    pub open spec fn calls_for(self, action: Action) -> bool {
        match action {
            Action::Invoke(i) => first_in(self.states, Phase::Admitted, i as int),
            Action::Admit(i) => {
                &&& !some_in(self.states, Phase::Admitted)
                &&& self.gate.has_free_slot()
                &&& first_in(self.states, Phase::Pending, i as int)
            },
            Action::Wait => {
                &&& !some_in(self.states, Phase::Admitted)
                &&& !(self.gate.has_free_slot() && some_in(self.states, Phase::Pending))
                &&& some_in(self.states, Phase::Invoking)
            },
            Action::Finish => self.is_complete(),
        }
    }
}

impl View for Orchestrator {
    type V = OrchestratorView;

    closed spec fn view(&self) -> OrchestratorView {
        OrchestratorView {
            items: self.items.deep_view(),
            states: self.states.deep_view(),
            gate: self.gate@,
        }
    }
}

/// States of `n` items that are all pending.
fn all_pending(n: usize) -> (states: Vec<TaskState>)
    ensures
        states.deep_view() == Seq::new(n as nat, |i: int| TaskStateView::Pending),
{
    let mut states: Vec<TaskState> = Vec::new();
    while states.len() < n
        invariant
            states.len() <= n,
            forall|i: int| 0 <= i < states.len() ==> (#[trigger] states[i])@ == TaskStateView::Pending,
        decreases n - states.len(),
    {
        states.push(TaskState::Pending);
    }
    assert(states.deep_view() =~= Seq::new(n as nat, |i: int| TaskStateView::Pending));
    states
}

/// Among states that are all pending, only `Pending` is counted.
proof fn lemma_all_pending_counts(states: Seq<TaskStateView>)
    requires
        forall|i: int| 0 <= i < states.len() ==> (#[trigger] states[i]).phase() == Phase::Pending,
    ensures
        count_in(states, Phase::Pending) == states.len(),
        holding(states) == 0,
        finished(states) == 0,
{
    lemma_count_zero(states, Phase::Admitted);
    lemma_count_zero(states, Phase::Invoking);
    lemma_count_zero(states, Phase::Succeeded);
    lemma_count_zero(states, Phase::Failed);
    lemma_counts_sum(states);
}

impl Orchestrator {
    /// The well-formedness every operation keeps.
    pub open spec fn wf(&self) -> bool {
        self@.wf()
    }

    /// Every item pending, behind a gate of `cap` slots.
    pub fn new(items: Vec<Item>, cap: usize) -> (r: Orchestrator)
        requires
            cap >= 1,
        ensures
            r.wf(),
            r@ == OrchestratorView::initial(items.deep_view(), cap as nat),
    {
        let states = all_pending(items.len());
        let gate = Gate::new(cap);
        proof {
            lemma_all_pending_counts(states.deep_view());
        }
        Orchestrator { items, states, gate }
    }

    /// Number of items.
    pub fn len(&self) -> (n: usize)
        ensures
            n == self@.items.len(),
    {
        self.items.len()
    }

    /// The admission gate, for reading its counters.
    pub fn gate(&self) -> (g: &Gate)
        ensures
            g@ == self@.gate,
    {
        &self.gate
    }

    /// Item `i`, if there is one.
    pub fn item(&self, i: usize) -> (r: Option<&Item>)
        ensures
            r.is_some() == (i < self@.items.len()),
            r.is_some() ==> r.unwrap()@ == self@.items[i as int],
    {
        if i < self.items.len() {
            Some(&self.items[i])
        } else {
            None
        }
    }

    /// The phase of item `i`, if there is one.
    pub fn phase(&self, i: usize) -> (r: Option<Phase>)
        ensures
            r == if i < self@.states.len() {
                Some(self@.phase(i as int))
            } else {
                None
            },
    {
        if i < self.states.len() {
            Some(self.states[i].phase())
        } else {
            None
        }
    }

    /// Why a step on item `i` that starts from `from` cannot be taken, if it cannot.
    fn check(&self, i: usize, from: Phase) -> (r: Option<Refusal>)
        requires
            self.wf(),
        ensures
            r == self@.refusal(i as int, from),
    {
        if i >= self.states.len() {
            Some(Refusal::NoSuchItem)
        } else if self.states[i].phase() != from {
            Some(Refusal::WrongPhase)
        } else if from == Phase::Pending && self.gate.in_use() >= self.gate.capacity() {
            Some(Refusal::GateFull)
        } else {
            None
        }
    }

    /// Lets pending item `i` in, on a free slot. It is refused, and nothing
    /// changes, when there is no such item, when the item is not pending, or
    /// when no slot is free.
    pub fn admit_item(&mut self, i: usize) -> (r: Result<(), Refusal>)
        requires
            old(self).wf(),
        ensures
            final(self).wf(),
            match r {
                Ok(()) => {
                    &&& old(self)@.refusal(i as int, Phase::Pending).is_none()
                    &&& final(self)@ == old(self)@.after_admit(i as int)
                },
                Err(why) => {
                    &&& old(self)@.refusal(i as int, Phase::Pending) == Some(why)
                    &&& final(self)@ == old(self)@
                },
            },
    {
        match self.check(i, Phase::Pending) {
            Some(why) => Err(why),
            None => {
                proof {
                    lemma_count_zero(self@.states, Phase::Pending);
                    assert(self@.states[i as int].phase() == Phase::Pending);
                    assert(self@.states.len() == self.states.len());
                    lemma_counts_update(self@.states, i as int, TaskStateView::Admitted);
                }
                match self.gate.try_acquire() {
                    Some(permit) => {
                        self.states.set(i, TaskState::Admitted(permit));
                        assert(self@.states =~= old(self)@.states.update(
                            i as int,
                            TaskStateView::Admitted,
                        ));
                        Ok(())
                    },
                    None => Err(Refusal::GateFull),
                }
            },
        }
    }
}

impl Orchestrator {
    /// Starts admitted item `i`: it is now invoking, and the arguments to run
    /// the downloader with are returned. It is refused, and nothing changes,
    /// when there is no such item or the item is not admitted.
    pub fn invoke(&mut self, i: usize) -> (r: Result<Vec<String>, Refusal>)
        requires
            old(self).wf(),
        ensures
            final(self).wf(),
            match r {
                Ok(args) => {
                    &&& old(self)@.refusal(i as int, Phase::Admitted).is_none()
                    &&& final(self)@ == old(self)@.after_invoke(i as int)
                    &&& args.deep_view() == download_args_spec(
                        WORKSHOP_APP_ID@,
                        old(self)@.items[i as int].id,
                    )
                },
                Err(why) => {
                    &&& old(self)@.refusal(i as int, Phase::Admitted) == Some(why)
                    &&& final(self)@ == old(self)@
                },
            },
    {
        match self.check(i, Phase::Admitted) {
            Some(why) => Err(why),
            None => {
                proof {
                    lemma_counts_update(self@.states, i as int, TaskStateView::Invoking);
                }
                let mut state = TaskState::Pending;
                std::mem::swap(&mut self.states[i], &mut state);
                match state {
                    TaskState::Admitted(permit) => {
                        self.states.set(i, TaskState::Invoking(permit));
                    },
                    other => {
                        assert(false);
                        self.states.set(i, other);
                    },
                }
                assert(self@.states =~= old(self)@.states.update(
                    i as int,
                    TaskStateView::Invoking,
                ));
                Ok(download_args(&self.items[i]))
            },
        }
    }

    /// Records what the invocation of item `i` came to: the permit goes back
    /// to its gate, the item becomes succeeded or failed, and its outcome is
    /// returned. It is refused, and nothing changes, when there is no such
    /// item or the item is not invoking.
    pub fn complete(&mut self, i: usize, invocation: Invocation) -> (r: Result<
        TaskOutcome,
        Refusal,
    >)
        requires
            old(self).wf(),
        ensures
            final(self).wf(),
            match r {
                Ok(outcome) => {
                    &&& old(self)@.refusal(i as int, Phase::Invoking).is_none()
                    &&& final(self)@ == old(self)@.after_complete(i as int, invocation@)
                    &&& outcome@ == outcome_of(old(self)@.items[i as int], invocation@)
                },
                Err(why) => {
                    &&& old(self)@.refusal(i as int, Phase::Invoking) == Some(why)
                    &&& final(self)@ == old(self)@
                },
            },
    {
        match self.check(i, Phase::Invoking) {
            Some(why) => Err(why),
            None => {
                proof {
                    lemma_count_zero(self@.states, Phase::Invoking);
                    assert(self@.states[i as int].phase() == Phase::Invoking);
                    lemma_counts_update(
                        self@.states,
                        i as int,
                        TaskStateView::finished(error_of(invocation@)),
                    );
                }
                let item = self.items[i].clone();
                let (mut state, outcome) = match classify(invocation) {
                    None => (TaskState::Succeeded, TaskOutcome::Success(item)),
                    Some(error) => (
                        TaskState::Failed(error.clone()),
                        TaskOutcome::Failure(FailedItem { item, error }),
                    ),
                };
                std::mem::swap(&mut self.states[i], &mut state);
                match state {
                    TaskState::Invoking(permit) => {
                        self.gate.release(permit);
                    },
                    _ => {
                        assert(false);
                    },
                }
                assert(self@.states =~= old(self)@.states.update(
                    i as int,
                    TaskStateView::finished(error_of(invocation@)),
                ));
                Ok(outcome)
            },
        }
    }
}

/// Completion read off the counts: everything is done exactly when nothing
/// is pending and nothing holds a permit.
pub proof fn lemma_complete_counts(states: Seq<TaskStateView>)
    ensures
        finished(states) == states.len() <==> (forall|i: int|
            0 <= i < states.len() ==> (#[trigger] states[i]).phase().is_terminal()),
{
    lemma_counts_sum(states);
    lemma_count_zero(states, Phase::Pending);
    lemma_count_zero(states, Phase::Admitted);
    lemma_count_zero(states, Phase::Invoking);
    if finished(states) == states.len() {
        assert forall|i: int| 0 <= i < states.len() implies (#[trigger] states[i]).phase().is_terminal() by {
            let p = states[i].phase();
            assert(p != Phase::Pending && p != Phase::Admitted && p != Phase::Invoking);
        }
    }
}

impl Orchestrator {
    /// The first item in `phase`, if any.
    pub fn first_in_phase(&self, phase: Phase) -> (r: Option<usize>)
        ensures
            match r {
                Some(i) => first_in(self@.states, phase, i as int),
                None => !some_in(self@.states, phase),
            },
    {
        let mut i: usize = 0;
        while i < self.states.len()
            invariant
                i <= self.states.len(),
                forall|j: int| 0 <= j < i ==> (#[trigger] self@.states[j]).phase() != phase,
            decreases self.states.len() - i,
        {
            if self.states[i].phase() == phase {
                return Some(i);
            }
            i = i + 1;
        }
        None
    }

    /// What the caller is to do next.
    pub fn next_action(&self) -> (action: Action)
        requires
            self.wf(),
        ensures
            self@.calls_for(action),
    {
        proof {
            lemma_count_zero(self@.states, Phase::Admitted);
            lemma_count_zero(self@.states, Phase::Invoking);
        }
        if let Some(i) = self.first_in_phase(Phase::Admitted) {
            return Action::Invoke(i);
        }
        if self.gate.in_use() < self.gate.capacity() {
            if let Some(i) = self.first_in_phase(Phase::Pending) {
                return Action::Admit(i);
            }
        }
        if self.gate.in_use() > 0 {
            Action::Wait
        } else {
            assert forall|i: int| 0 <= i < self@.states.len() implies (#[trigger] self@.states[i]).phase().is_terminal() by {
                let p = self@.states[i].phase();
                assert(p != Phase::Pending && p != Phase::Admitted && p != Phase::Invoking);
            }
            Action::Finish
        }
    }

    /// Whether every item has reached a terminal phase.
    pub fn is_complete(&self) -> (r: bool)
        requires
            self.wf(),
        ensures
            r == self@.is_complete(),
    {
        proof {
            lemma_complete_counts(self@.states);
        }
        self.gate.released() == self.states.len()
    }

    /// The outcome of item `i`: `None` while the item is not done, or when
    /// there is no such item.
    pub fn outcome(&self, i: usize) -> (r: Option<TaskOutcome>)
        requires
            self.wf(),
        ensures
            r.is_some() == (i < self@.states.len() && self@.phase(i as int).is_terminal()),
            r.is_some() ==> Some(r.unwrap()@) == self@.outcome(i as int),
    {
        if i >= self.states.len() {
            return None;
        }
        match &self.states[i] {
            TaskState::Succeeded => Some(TaskOutcome::Success(self.items[i].clone())),
            TaskState::Failed(error) => Some(
                TaskOutcome::Failure(FailedItem { item: self.items[i].clone(), error: error.clone() }),
            ),
            _ => None,
        }
    }

    /// The outcomes of all items, in item order: `None` while any item is
    /// not done.
    pub fn outcomes(&self) -> (r: Option<Vec<TaskOutcome>>)
        requires
            self.wf(),
        ensures
            r.is_some() == self@.is_complete(),
            r.is_some() ==> r.unwrap().deep_view() == self@.outcomes(),
    {
        let mut all: Vec<TaskOutcome> = Vec::new();
        let mut i: usize = 0;
        while i < self.states.len()
            invariant
                self.wf(),
                i <= self.states.len(),
                self.states.len() == self@.states.len(),
                all.len() == i,
                forall|j: int| 0 <= j < i ==> (#[trigger] self@.states[j]).phase().is_terminal(),
                forall|j: int| 0 <= j < i ==> Some((#[trigger] all[j])@) == self@.outcome(j),
            decreases self.states.len() - i,
        {
            match self.outcome(i) {
                Some(outcome) => {
                    all.push(outcome);
                },
                None => {
                    assert(!self@.states[i as int].phase().is_terminal());
                    return None;
                },
            }
            i = i + 1;
        }
        assert(all.deep_view() =~= self@.outcomes());
        Some(all)
    }

    /// The aggregate result: `None` while any item is not done, afterwards
    /// every failure among the outcomes, in item order.
    pub fn result(&self) -> (r: Option<AggregateResult>)
        requires
            self.wf(),
        ensures
            r.is_some() == self@.is_complete(),
            r.is_some() ==> r.unwrap()@ == failures_of(self@.outcomes()),
    {
        match self.outcomes() {
            Some(all) => Some(AggregateResult::from_outcomes(&all)),
            None => None,
        }
    }
}

} // verus!
