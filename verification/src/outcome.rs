//! Per-item outcomes and the messages that report them.

use crate::invoker::{Invocation, InvocationView};
use crate::item::{Item, ItemView};
use vstd::prelude::*;
use vstd::string::*;

verus! {

/// Why one item failed.
#[derive(Debug, PartialEq, Eq)]
pub enum TaskError {
    /// The downloader could not be started; carries the description of why.
    Launch(String),
    /// The downloader ran and exited with a failure status; carries what it
    /// wrote to its error stream.
    Process(String),
}

/// Mathematical value of a [`TaskError`].
pub enum TaskErrorView {
    Launch(Seq<char>),
    Process(Seq<char>),
}

impl TaskErrorView {
    /// The diagnostic text carried by the error.
    pub open spec fn diagnostic(self) -> Seq<char> {
        match self {
            TaskErrorView::Launch(why) => why,
            TaskErrorView::Process(stderr) => stderr,
        }
    }
}

impl View for TaskError {
    type V = TaskErrorView;

    open spec fn view(&self) -> TaskErrorView {
        match self {
            TaskError::Launch(why) => TaskErrorView::Launch(why@),
            TaskError::Process(stderr) => TaskErrorView::Process(stderr@),
        }
    }
}

impl Clone for TaskError {
    fn clone(&self) -> (r: Self)
        ensures
            r@ == self@,
    {
        match self {
            TaskError::Launch(why) => TaskError::Launch(why.clone()),
            TaskError::Process(stderr) => TaskError::Process(stderr.clone()),
        }
    }
}

impl TaskError {
    /// The diagnostic text carried by the error.
    pub fn diagnostic(&self) -> (text: &str)
        ensures
            text@ == self@.diagnostic(),
    {
        match self {
            TaskError::Launch(why) => why.as_str(),
            TaskError::Process(stderr) => stderr.as_str(),
        }
    }
}

/// An item that failed, with the reason.
#[derive(Debug, PartialEq, Eq)]
pub struct FailedItem {
    pub item: Item,
    pub error: TaskError,
}

/// Mathematical value of a [`FailedItem`].
pub struct FailedItemView {
    pub item: ItemView,
    pub error: TaskErrorView,
}

impl View for FailedItem {
    type V = FailedItemView;

    open spec fn view(&self) -> FailedItemView {
        FailedItemView { item: self.item@, error: self.error@ }
    }
}

impl DeepView for FailedItem {
    type V = FailedItemView;

    open spec fn deep_view(&self) -> FailedItemView {
        self@
    }
}

impl Clone for FailedItem {
    fn clone(&self) -> (r: Self)
        ensures
            r@ == self@,
    {
        FailedItem { item: self.item.clone(), error: self.error.clone() }
    }
}

/// The result of processing one item.
#[derive(Debug, PartialEq, Eq)]
pub enum TaskOutcome {
    Success(Item),
    Failure(FailedItem),
}

/// Mathematical value of a [`TaskOutcome`].
pub enum TaskOutcomeView {
    Success(ItemView),
    Failure(FailedItemView),
}

impl TaskOutcomeView {
    /// The item the outcome belongs to.
    pub open spec fn item(self) -> ItemView {
        match self {
            TaskOutcomeView::Success(item) => item,
            TaskOutcomeView::Failure(failed) => failed.item,
        }
    }

    /// Whether the item was downloaded.
    pub open spec fn is_success(self) -> bool {
        self is Success
    }
}

impl View for TaskOutcome {
    type V = TaskOutcomeView;

    open spec fn view(&self) -> TaskOutcomeView {
        match self {
            TaskOutcome::Success(item) => TaskOutcomeView::Success(item@),
            TaskOutcome::Failure(failed) => TaskOutcomeView::Failure(failed@),
        }
    }
}

impl DeepView for TaskOutcome {
    type V = TaskOutcomeView;

    open spec fn deep_view(&self) -> TaskOutcomeView {
        self@
    }
}

impl Clone for TaskOutcome {
    fn clone(&self) -> (r: Self)
        ensures
            r@ == self@,
    {
        match self {
            TaskOutcome::Success(item) => TaskOutcome::Success(item.clone()),
            TaskOutcome::Failure(failed) => TaskOutcome::Failure(failed.clone()),
        }
    }
}

/// The error, if any, that an invocation amounts to: a process that could not
/// be started is a launch error, one that exited with a failure status is a
/// process failure carrying its error stream, and a successful exit is none.
pub open spec fn error_of(invocation: InvocationView) -> Option<TaskErrorView> {
    match invocation {
        InvocationView::LaunchFailed(why) => Some(TaskErrorView::Launch(why)),
        InvocationView::Exited(p) => if p.exit_success {
            None
        } else {
            Some(TaskErrorView::Process(p.stderr_text))
        },
    }
}

/// The outcome of `item` given what its invocation came to.
pub open spec fn outcome_of(item: ItemView, invocation: InvocationView) -> TaskOutcomeView {
    match error_of(invocation) {
        None => TaskOutcomeView::Success(item),
        Some(error) => TaskOutcomeView::Failure(FailedItemView { item, error }),
    }
}

/// The error that `invocation` amounts to, if it is one.
pub fn classify(invocation: Invocation) -> (r: Option<TaskError>)
    ensures
        r.is_some() == error_of(invocation@).is_some(),
        r.is_some() ==> r.unwrap()@ == error_of(invocation@).unwrap(),
{
    match invocation {
        Invocation::LaunchFailed(why) => Some(TaskError::Launch(why)),
        Invocation::Exited(p) => if p.exit_success {
            None
        } else {
            Some(TaskError::Process(p.stderr_text))
        },
    }
}

impl TaskOutcome {
    /// The outcome of `item` given what its invocation came to.
    pub fn from_invocation(item: Item, invocation: Invocation) -> (r: TaskOutcome)
        ensures
            r@ == outcome_of(item@, invocation@),
    {
        match classify(invocation) {
            None => TaskOutcome::Success(item),
            Some(error) => TaskOutcome::Failure(FailedItem { item, error }),
        }
    }

    /// The item the outcome belongs to.
    pub fn item(&self) -> (r: &Item)
        ensures
            r@ == self@.item(),
    {
        match self {
            TaskOutcome::Success(item) => item,
            TaskOutcome::Failure(failed) => &failed.item,
        }
    }

    /// Whether the item was downloaded.
    pub fn is_success(&self) -> (r: bool)
        ensures
            r == self@.is_success(),
    {
        match self {
            TaskOutcome::Success(_) => true,
            TaskOutcome::Failure(_) => false,
        }
    }
}

} // verus!
