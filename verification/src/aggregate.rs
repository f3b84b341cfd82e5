//! Reducing the outcomes of all items to one result.

use crate::outcome::{FailedItem, FailedItemView, TaskOutcome, TaskOutcomeView};
use crate::report::{failure_message, failure_message_spec};
use vstd::prelude::*;
use vstd::string::*;

verus! {

/// The failures among `outcomes`, in the order of the outcomes.
pub open spec fn failures_of(outcomes: Seq<TaskOutcomeView>) -> Seq<FailedItemView>
    decreases outcomes.len(),
{
    if outcomes.len() == 0 {
        Seq::empty()
    } else {
        let before = failures_of(outcomes.drop_last());
        match outcomes.last() {
            TaskOutcomeView::Failure(failed) => before.push(failed),
            TaskOutcomeView::Success(_) => before,
        }
    }
}

/// The message of an overall failure: it reports the first failed item.
pub open spec fn aggregate_message(failures: Seq<FailedItemView>) -> Seq<char>
    recommends
        failures.len() > 0,
{
    "Mod installation failed: "@ + failure_message_spec(failures[0])
}

/// The plain result that `failures` amounts to.
pub open spec fn verdict(failures: Seq<FailedItemView>) -> Result<(), Seq<char>> {
    if failures.len() == 0 {
        Ok(())
    } else {
        Err(aggregate_message(failures))
    }
}

/// The reduction of all outcomes: success when nothing failed, otherwise
/// every failed item with its reason, in item order.
#[derive(Debug, PartialEq, Eq)]
pub struct AggregateResult {
    pub failures: Vec<FailedItem>,
}

impl View for AggregateResult {
    type V = Seq<FailedItemView>;

    open spec fn view(&self) -> Seq<FailedItemView> {
        self.failures.deep_view()
    }
}

impl AggregateResult {
    /// Reduces `outcomes`, which hold one outcome per item.
    pub fn from_outcomes(outcomes: &Vec<TaskOutcome>) -> (r: AggregateResult)
        ensures
            r@ == failures_of(outcomes.deep_view()),
    {
        let mut failures: Vec<FailedItem> = Vec::new();
        let mut i: usize = 0;
        while i < outcomes.len()
            invariant
                i <= outcomes.len(),
                failures.deep_view() == failures_of(outcomes.deep_view().take(i as int)),
            decreases outcomes.len() - i,
        {
            let ghost seen = outcomes.deep_view().take(i as int);
            let ghost next = outcomes.deep_view().take(i + 1);
            assert(next.drop_last() =~= seen);
            assert(next.last() == outcomes[i as int]@);
            match &outcomes[i] {
                TaskOutcome::Failure(failed) => {
                    let ghost before = failures.deep_view();
                    failures.push(failed.clone());
                    assert(failures.deep_view() =~= before.push(failed@));
                },
                TaskOutcome::Success(_) => {},
            }
            i = i + 1;
        }
        assert(outcomes.deep_view().take(i as int) =~= outcomes.deep_view());
        AggregateResult { failures }
    }

    /// Whether every item succeeded.
    pub fn is_success(&self) -> (r: bool)
        ensures
            r == (self@.len() == 0),
    {
        self.failures.len() == 0
    }

    /// The pass/fail answer: `Ok` when every item succeeded, otherwise the
    /// message that reports the first failed item.
    pub fn into_result(self) -> (r: Result<(), String>)
        ensures
            r.is_ok() == verdict(self@).is_ok(),
            r.is_err() ==> r.unwrap_err()@ == verdict(self@).unwrap_err(),
    {
        if self.failures.len() == 0 {
            Ok(())
        } else {
            let mut message = String::from_str("Mod installation failed: ");
            let first = failure_message(&self.failures[0]);
            message.append(first.as_str());
            Err(message)
        }
    }
}

} // verus!
