//! Operating-system names and the search path, as plain values.

use vstd::prelude::*;
use vstd::string::*;

verus! {

/// The operating system a program was built for.
#[derive(Clone, Copy, Debug, PartialEq, Eq, Structural)]
pub enum TargetOs {
    Windows,
    Linux,
    Macos,
    Other,
}

impl TargetOs {
    /// The lower-case name by which callers ask for this system; `Other` has none.
    pub open spec fn name(self) -> Option<Seq<char>> {
        match self {
            TargetOs::Windows => Some("windows"@),
            TargetOs::Linux => Some("linux"@),
            TargetOs::Macos => Some("macos"@),
            TargetOs::Other => None,
        }
    }
}

/// The three names are different texts, so a name stands for one system.
pub proof fn lemma_os_names_differ()
    ensures
        "windows"@ != "linux"@,
        "windows"@ != "macos"@,
        "linux"@ != "macos"@,
{
    reveal_strlit("windows");
    reveal_strlit("linux");
    reveal_strlit("macos");
    assert("linux"@[0] != "macos"@[0]);
}

/// Character-wise equality of two string slices.
pub fn same_text(a: &str, b: &str) -> (r: bool)
    ensures
        r == (a@ == b@),
{
    let x = String::from_str(a);
    let y = String::from_str(b);
    x == y
}

/// Whether `os` names the system `target`: true exactly when `os` is
/// `"windows"`, `"linux"` or `"macos"` and `target` is that system.
pub fn is_os(os: &str, target: TargetOs) -> (r: bool)
    ensures
        r == (target.name() == Some(os@)),
{
    match target {
        TargetOs::Windows => same_text(os, "windows"),
        TargetOs::Linux => same_text(os, "linux"),
        TargetOs::Macos => same_text(os, "macos"),
        TargetOs::Other => false,
    }
}

/// Puts `new_path` at the end of the search path `paths`, whose entries stay
/// as they are and in their order.
pub fn add_to_path(paths: &mut Vec<String>, new_path: &str)
    ensures
        final(paths).deep_view() == old(paths).deep_view().push(new_path@),
{
    paths.push(String::from_str(new_path));
    assert(paths.deep_view() =~= old(paths).deep_view().push(new_path@));
}

} // verus!
