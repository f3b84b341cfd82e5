//! The lines that report an item's progress.

use crate::item::{Item, ItemView};
use crate::outcome::{
    FailedItem, FailedItemView, TaskError, TaskErrorView, TaskOutcome, TaskOutcomeView,
};
use vstd::prelude::*;
use vstd::string::*;

verus! {

/// `prefix`, then the item's label, `" with ID: "` and its identifier.
pub open spec fn labelled(prefix: Seq<char>, item: ItemView) -> Seq<char> {
    prefix + item.name + " with ID: "@ + item.id
}

/// The line announcing that an item has been admitted and is being started.
pub open spec fn start_message_spec(item: ItemView) -> Seq<char> {
    labelled("Starting to install mod: "@, item)
}

/// The line announcing that an item was downloaded.
pub open spec fn success_message_spec(item: ItemView) -> Seq<char> {
    labelled("Successfully downloaded mod: "@, item)
}

/// The line describing a failed item: which item, and why.
pub open spec fn failure_message_spec(failed: FailedItemView) -> Seq<char> {
    match failed.error {
        TaskErrorView::Process(stderr) => labelled("Failed to download mod: "@, failed.item)
            + ". SteamCMD output: "@ + stderr,
        TaskErrorView::Launch(why) => labelled("Failed to execute SteamCMD for mod: "@, failed.item)
            + ". Launch error: "@ + why,
    }
}

/// The line that reports an outcome.
pub open spec fn outcome_message_spec(outcome: TaskOutcomeView) -> Seq<char> {
    match outcome {
        TaskOutcomeView::Success(item) => success_message_spec(item),
        TaskOutcomeView::Failure(failed) => failure_message_spec(failed),
    }
}

fn labelled_text(prefix: &str, item: &Item) -> (r: String)
    ensures
        r@ == labelled(prefix@, item@),
{
    let mut line = String::from_str(prefix);
    line.append(item.name.as_str());
    line.append(" with ID: ");
    line.append(item.id.as_str());
    line
}

/// The line announcing that `item` has been admitted and is being started.
pub fn start_message(item: &Item) -> (r: String)
    ensures
        r@ == start_message_spec(item@),
{
    labelled_text("Starting to install mod: ", item)
}

/// The line announcing that `item` was downloaded.
pub fn success_message(item: &Item) -> (r: String)
    ensures
        r@ == success_message_spec(item@),
{
    labelled_text("Successfully downloaded mod: ", item)
}

/// The line describing `failed`: which item, and why.
pub fn failure_message(failed: &FailedItem) -> (r: String)
    ensures
        r@ == failure_message_spec(failed@),
{
    match &failed.error {
        TaskError::Process(stderr) => {
            let mut line = labelled_text("Failed to download mod: ", &failed.item);
            line.append(". SteamCMD output: ");
            line.append(stderr.as_str());
            line
        },
        TaskError::Launch(why) => {
            let mut line = labelled_text("Failed to execute SteamCMD for mod: ", &failed.item);
            line.append(". Launch error: ");
            line.append(why.as_str());
            line
        },
    }
}

/// The line that reports `outcome`.
pub fn outcome_message(outcome: &TaskOutcome) -> (r: String)
    ensures
        r@ == outcome_message_spec(outcome@),
{
    match outcome {
        TaskOutcome::Success(item) => success_message(item),
        TaskOutcome::Failure(failed) => failure_message(failed),
    }
}

} // verus!
