//! What is handed to the downloader for one item, and what comes back.

use crate::item::Item;
use crate::text::{decode_lossy, lossy_text};
use vstd::prelude::*;
use vstd::string::*;
use vstd::utf8::{decode_utf8, valid_utf8};

verus! {

/// The content namespace every download is made in.
pub const WORKSHOP_APP_ID: &'static str = "294100";

/// The three arguments of one download: log in anonymously, fetch the item
/// of the given namespace, quit.
pub open spec fn download_args_spec(namespace: Seq<char>, id: Seq<char>) -> Seq<Seq<char>> {
    seq![
        "+login anonymous"@,
        "+workshop_download_item "@ + namespace + " "@ + id,
        "+quit"@,
    ]
}

/// Arguments for downloading `item` from `namespace`.
pub fn download_args_in(namespace: &str, item: &Item) -> (args: Vec<String>)
    ensures
        args.deep_view() == download_args_spec(namespace@, item@.id),
{
    let mut fetch = String::from_str("+workshop_download_item ");
    fetch.append(namespace);
    fetch.append(" ");
    fetch.append(item.id.as_str());
    let mut args: Vec<String> = Vec::new();
    args.push(String::from_str("+login anonymous"));
    args.push(fetch);
    args.push(String::from_str("+quit"));
    assert(args.deep_view() =~= download_args_spec(namespace@, item@.id));
    args
}

/// Arguments for downloading `item` from the fixed namespace.
pub fn download_args(item: &Item) -> (args: Vec<String>)
    ensures
        args.deep_view() == download_args_spec(WORKSHOP_APP_ID@, item@.id),
{
    download_args_in(WORKSHOP_APP_ID, item)
}

/// Terminal status of a process that ran: whether it exited successfully,
/// and everything it wrote to its error stream.
#[derive(Debug, PartialEq, Eq)]
pub struct ProcessResult {
    pub exit_success: bool,
    pub stderr_text: String,
}

/// Mathematical value of a [`ProcessResult`].
pub struct ProcessResultView {
    pub exit_success: bool,
    pub stderr_text: Seq<char>,
}

impl View for ProcessResult {
    type V = ProcessResultView;

    open spec fn view(&self) -> ProcessResultView {
        ProcessResultView { exit_success: self.exit_success, stderr_text: self.stderr_text@ }
    }
}

impl Clone for ProcessResult {
    fn clone(&self) -> (r: Self)
        ensures
            r@ == self@,
    {
        ProcessResult { exit_success: self.exit_success, stderr_text: self.stderr_text.clone() }
    }
}

impl ProcessResult {
    /// From the raw capture: the error stream is decoded lossily, so a
    /// well-formed stream is taken as it is.
    pub fn from_output(exit_success: bool, stderr: &[u8]) -> (r: ProcessResult)
        ensures
            r@ == (ProcessResultView { exit_success, stderr_text: lossy_text(stderr@) }),
            valid_utf8(stderr@) ==> r@.stderr_text == decode_utf8(stderr@),
    {
        ProcessResult { exit_success, stderr_text: decode_lossy(stderr) }
    }
}

/// What one attempt to run the downloader came to.
#[derive(Debug, PartialEq, Eq)]
pub enum Invocation {
    /// The process ran to its end.
    Exited(ProcessResult),
    /// The process could not be started; the text describes why.
    LaunchFailed(String),
}

/// Mathematical value of an [`Invocation`].
pub enum InvocationView {
    Exited(ProcessResultView),
    LaunchFailed(Seq<char>),
}

impl View for Invocation {
    type V = InvocationView;

    open spec fn view(&self) -> InvocationView {
        match self {
            Invocation::Exited(p) => InvocationView::Exited(p@),
            Invocation::LaunchFailed(why) => InvocationView::LaunchFailed(why@),
        }
    }
}

impl DeepView for Invocation {
    type V = InvocationView;

    open spec fn deep_view(&self) -> InvocationView {
        self@
    }
}

impl Clone for Invocation {
    fn clone(&self) -> (r: Self)
        ensures
            r@ == self@,
    {
        match self {
            Invocation::Exited(p) => Invocation::Exited(p.clone()),
            Invocation::LaunchFailed(why) => Invocation::LaunchFailed(why.clone()),
        }
    }
}

} // verus!
