//! Finding and installing the downloader: where it lives, whether it has to
//! be fetched, with which command, and what each observation leads to. The
//! caller looks at the disk and runs the command.

use crate::utils::{is_os, lemma_os_names_differ, TargetOs};
use vstd::prelude::*;
use vstd::string::*;

verus! {

/// The directory the downloader is installed in: a fixed one on Windows,
/// one under the user's home directory elsewhere.
pub open spec fn install_dir_spec(target: TargetOs, home: Seq<char>) -> Seq<char> {
    if target == TargetOs::Windows {
        "C:/RimRust/steamcmd"@
    } else {
        home + "/RimRust/steamcmd"@
    }
}

/// The downloader's launcher inside `dir`: the executable on Windows, the
/// shell script elsewhere.
pub open spec fn tool_path_spec(target: TargetOs, dir: Seq<char>) -> Seq<char> {
    if target == TargetOs::Windows {
        binary_path_spec(dir)
    } else {
        script_path_spec(dir)
    }
}

/// The shell script's path inside `dir`.
pub open spec fn script_path_spec(dir: Seq<char>) -> Seq<char> {
    dir + "/steamcmd.sh"@
}

/// The executable's path inside `dir`.
pub open spec fn binary_path_spec(dir: Seq<char>) -> Seq<char> {
    dir + "/steamcmd.exe"@
}

/// Whether `target` is Windows.
fn on_windows(target: TargetOs) -> (r: bool)
    ensures
        r == (target == TargetOs::Windows),
{
    proof {
        lemma_os_names_differ();
    }
    is_os("windows", target)
}

/// `text` with `tail` after it.
fn joined(text: &str, tail: &str) -> (r: String)
    ensures
        r@ == text@ + tail@,
{
    let mut r = String::from_str(text);
    r.append(tail);
    r
}

/// The directory the downloader is installed in, for a user whose home
/// directory is `home`.
pub fn install_dir(target: TargetOs, home: &str) -> (dir: String)
    ensures
        dir@ == install_dir_spec(target, home@),
{
    if on_windows(target) {
        String::from_str("C:/RimRust/steamcmd")
    } else {
        joined(home, "/RimRust/steamcmd")
    }
}

/// The shell script's path inside `dir`.
pub fn script_path(dir: &str) -> (path: String)
    ensures
        path@ == script_path_spec(dir@),
{
    joined(dir, "/steamcmd.sh")
}

/// The executable's path inside `dir`.
pub fn binary_path(dir: &str) -> (path: String)
    ensures
        path@ == binary_path_spec(dir@),
{
    joined(dir, "/steamcmd.exe")
}

/// The downloader's launcher inside `dir`.
pub fn tool_path(target: TargetOs, dir: &str) -> (path: String)
    ensures
        path@ == tool_path_spec(target, dir@),
{
    if on_windows(target) {
        binary_path(dir)
    } else {
        script_path(dir)
    }
}

/// Where the downloader is, if anywhere: its launcher in the install
/// directory when that exists, otherwise the one found on the search path.
pub open spec fn is_installed_spec(
    launcher: Seq<char>,
    launcher_exists: bool,
    on_search_path: Option<Seq<char>>,
) -> Result<Seq<char>, Seq<char>> {
    if launcher_exists {
        Ok(launcher)
    } else {
        match on_search_path {
            Some(found) => Ok(found),
            None => Err("steamcmd is not installed"@),
        }
    }
}

/// Decides where the downloader is from what the caller saw: `launcher` is
/// its path in the install directory, `launcher_exists` whether a file is
/// there, `on_search_path` the `steamcmd` found on the search path, if any.
pub fn is_installed(launcher: String, launcher_exists: bool, on_search_path: Option<String>) -> (r:
    Result<String, String>)
    ensures
        match is_installed_spec(
            launcher@,
            launcher_exists,
            match on_search_path {
                Some(found) => Some(found@),
                None => None,
            },
        ) {
            Ok(path) => r.is_ok() && r.unwrap()@ == path,
            Err(why) => r.is_err() && r.unwrap_err()@ == why,
        },
{
    if launcher_exists {
        Ok(launcher)
    } else {
        match on_search_path {
            Some(found) => Ok(found),
            None => Err(String::from_str("steamcmd is not installed")),
        }
    }
}

/// A program with the arguments to run it with.
#[derive(Debug, PartialEq, Eq)]
pub struct CommandLine {
    pub program: String,
    pub args: Vec<String>,
}

/// Mathematical value of a [`CommandLine`].
pub struct CommandLineView {
    pub program: Seq<char>,
    pub args: Seq<Seq<char>>,
}

impl View for CommandLine {
    type V = CommandLineView;

    open spec fn view(&self) -> CommandLineView {
        CommandLineView { program: self.program@, args: self.args.deep_view() }
    }
}

/// The command that fetches the downloader and unpacks it into `dir`.
pub open spec fn fetch_command_spec(target: TargetOs, dir: Seq<char>) -> CommandLineView {
    if target == TargetOs::Windows {
        CommandLineView {
            program: "powershell"@,
            args: seq![
                "-Command"@,
                "Invoke-WebRequest -Uri https://steamcdn-a.akamaihd.net/client/installer/steamcmd.zip -OutFile steamcmd.zip; Expand-Archive steamcmd.zip -DestinationPath "@
                    + dir + "; Remove-Item steamcmd.zip"@,
            ],
        }
    } else {
        CommandLineView {
            program: "sh"@,
            args: seq![
                "-c"@,
                "curl -O https://steamcdn-a.akamaihd.net/client/installer/steamcmd_osx.tar.gz && mkdir -p "@
                    + dir + " && tar -xvzf steamcmd_osx.tar.gz -C "@ + dir
                    + " && rm steamcmd_osx.tar.gz"@,
            ],
        }
    }
}

/// The command that fetches the downloader and unpacks it into `dir`.
pub fn fetch_command(target: TargetOs, dir: &str) -> (command: CommandLine)
    ensures
        command@ == fetch_command_spec(target, dir@),
{
    let mut args: Vec<String> = Vec::new();
    if on_windows(target) {
        let mut script = String::from_str(
            "Invoke-WebRequest -Uri https://steamcdn-a.akamaihd.net/client/installer/steamcmd.zip -OutFile steamcmd.zip; Expand-Archive steamcmd.zip -DestinationPath ",
        );
        script.append(dir);
        script.append("; Remove-Item steamcmd.zip");
        args.push(String::from_str("-Command"));
        args.push(script);
        assert(args.deep_view() =~= fetch_command_spec(target, dir@).args);
        CommandLine { program: String::from_str("powershell"), args }
    } else {
        let mut script = String::from_str(
            "curl -O https://steamcdn-a.akamaihd.net/client/installer/steamcmd_osx.tar.gz && mkdir -p ",
        );
        script.append(dir);
        script.append(" && tar -xvzf steamcmd_osx.tar.gz -C ");
        script.append(dir);
        script.append(" && rm steamcmd_osx.tar.gz");
        args.push(String::from_str("-c"));
        args.push(script);
        assert(args.deep_view() =~= fetch_command_spec(target, dir@).args);
        CommandLine { program: String::from_str("sh"), args }
    }
}

/// What the caller has seen or done so far while installing.
#[derive(Debug, PartialEq, Eq)]
pub enum Progress {
    /// Whether the shell script and the executable are in the directory.
    Probed { script_exists: bool, binary_exists: bool },
    /// The directory was created.
    DirectoryCreated,
    /// The directory could not be created; the text says why.
    DirectoryFailed(String),
    /// The fetch command ran; whether it exited successfully.
    Fetched { success: bool },
}

/// Mathematical value of a [`Progress`].
pub enum ProgressView {
    Probed { script_exists: bool, binary_exists: bool },
    DirectoryCreated,
    DirectoryFailed(Seq<char>),
    Fetched { success: bool },
}

impl View for Progress {
    type V = ProgressView;

    open spec fn view(&self) -> ProgressView {
        match self {
            Progress::Probed { script_exists, binary_exists } => ProgressView::Probed {
                script_exists: *script_exists,
                binary_exists: *binary_exists,
            },
            Progress::DirectoryCreated => ProgressView::DirectoryCreated,
            Progress::DirectoryFailed(why) => ProgressView::DirectoryFailed(why@),
            Progress::Fetched { success } => ProgressView::Fetched { success: *success },
        }
    }
}

/// What the caller is to do next while installing.
#[derive(Debug, PartialEq, Eq)]
pub enum InstallStep {
    /// Create the install directory, with its parents.
    CreateDirectory,
    /// Run this command and wait for it to exit.
    Fetch(CommandLine),
    /// The downloader is in this directory: put it on the search path.
    Installed(String),
    /// The installation failed with this message.
    Failed(String),
}

/// Mathematical value of an [`InstallStep`].
pub enum InstallStepView {
    CreateDirectory,
    Fetch(CommandLineView),
    Installed(Seq<char>),
    Failed(Seq<char>),
}

impl View for InstallStep {
    type V = InstallStepView;

    open spec fn view(&self) -> InstallStepView {
        match self {
            InstallStep::CreateDirectory => InstallStepView::CreateDirectory,
            InstallStep::Fetch(command) => InstallStepView::Fetch(command@),
            InstallStep::Installed(dir) => InstallStepView::Installed(dir@),
            InstallStep::Failed(why) => InstallStepView::Failed(why@),
        }
    }
}

/// The message for a fetch command that exited with a failure status.
pub open spec fn fetch_failure_spec(target: TargetOs) -> Seq<char> {
    if target == TargetOs::Windows {
        "Failed to install SteamCMD on Windows."@
    } else {
        "Failed to install SteamCMD on Linux/macOS."@
    }
}

/// The step that follows `progress`: nothing is fetched when either launcher
/// is already in `dir`; otherwise the directory is created, then the fetch
/// command is run, and the installation stands or falls with each of them.
pub open spec fn install_spec(target: TargetOs, dir: Seq<char>, progress: ProgressView) -> InstallStepView {
    match progress {
        ProgressView::Probed { script_exists, binary_exists } => if script_exists || binary_exists {
            InstallStepView::Installed(dir)
        } else {
            InstallStepView::CreateDirectory
        },
        ProgressView::DirectoryCreated => InstallStepView::Fetch(fetch_command_spec(target, dir)),
        ProgressView::DirectoryFailed(why) => InstallStepView::Failed(why),
        ProgressView::Fetched { success } => if success {
            InstallStepView::Installed(dir)
        } else {
            InstallStepView::Failed(fetch_failure_spec(target))
        },
    }
}

/// Decides the next step of installing the downloader into `dir`.
pub fn install(target: TargetOs, dir: String, progress: Progress) -> (step: InstallStep)
    ensures
        step@ == install_spec(target, dir@, progress@),
{
    match progress {
        Progress::Probed { script_exists, binary_exists } => {
            if script_exists || binary_exists {
                InstallStep::Installed(dir)
            } else {
                InstallStep::CreateDirectory
            }
        },
        Progress::DirectoryCreated => InstallStep::Fetch(fetch_command(target, dir.as_str())),
        Progress::DirectoryFailed(why) => InstallStep::Failed(why),
        Progress::Fetched { success } => {
            if success {
                InstallStep::Installed(dir)
            } else if on_windows(target) {
                InstallStep::Failed(String::from_str("Failed to install SteamCMD on Windows."))
            } else {
                InstallStep::Failed(String::from_str("Failed to install SteamCMD on Linux/macOS."))
            }
        },
    }
}

} // verus!
