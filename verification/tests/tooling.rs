use rimrust::steamcmd::install::{
    binary_path, fetch_command, install_dir, script_path, tool_path, InstallStep, Progress,
};
use rimrust::steamcmd::{install, is_installed};
use rimrust::utils::{add_to_path, is_os, same_text, TargetOs};

#[test]
fn is_os_matches_only_the_target() {
    assert!(is_os("windows", TargetOs::Windows));
    assert!(is_os("linux", TargetOs::Linux));
    assert!(is_os("macos", TargetOs::Macos));
    assert!(!is_os("linux", TargetOs::Windows));
    assert!(!is_os("macos", TargetOs::Linux));
    assert!(!is_os("windows", TargetOs::Macos));
}

#[test]
fn is_os_rejects_unknown_names() {
    for target in [TargetOs::Windows, TargetOs::Linux, TargetOs::Macos, TargetOs::Other] {
        assert!(!is_os("freebsd", target));
        assert!(!is_os("", target));
        assert!(!is_os("Windows", target));
        assert!(!is_os("linux ", target));
    }
    assert!(!is_os("windows", TargetOs::Other));
    assert!(!is_os("other", TargetOs::Other));
}

#[test]
fn same_text_compares_characters() {
    assert!(same_text("", ""));
    assert!(same_text("steamcmd", "steamcmd"));
    assert!(!same_text("steamcmd", "steamcmd "));
    assert!(!same_text("a", "b"));
}

#[test]
fn add_to_path_appends_at_the_end() {
    let mut paths = vec!["/usr/bin".to_string(), "/bin".to_string()];
    add_to_path(&mut paths, "/home/u/RimRust/steamcmd");
    assert_eq!(paths, vec!["/usr/bin", "/bin", "/home/u/RimRust/steamcmd"]);
    add_to_path(&mut paths, "/bin");
    assert_eq!(paths, vec!["/usr/bin", "/bin", "/home/u/RimRust/steamcmd", "/bin"]);
    let mut empty: Vec<String> = Vec::new();
    add_to_path(&mut empty, "");
    assert_eq!(empty, vec![""]);
}

#[test]
fn install_directory_depends_on_the_system() {
    assert_eq!(install_dir(TargetOs::Windows, "C:/Users/u"), "C:/RimRust/steamcmd");
    assert_eq!(install_dir(TargetOs::Linux, "/home/u"), "/home/u/RimRust/steamcmd");
    assert_eq!(install_dir(TargetOs::Macos, "/Users/u"), "/Users/u/RimRust/steamcmd");
    assert_eq!(install_dir(TargetOs::Other, ""), "/RimRust/steamcmd");
}

#[test]
fn launcher_paths() {
    assert_eq!(script_path("/home/u/RimRust/steamcmd"), "/home/u/RimRust/steamcmd/steamcmd.sh");
    assert_eq!(binary_path("C:/RimRust/steamcmd"), "C:/RimRust/steamcmd/steamcmd.exe");
    assert_eq!(tool_path(TargetOs::Windows, "C:/RimRust/steamcmd"), "C:/RimRust/steamcmd/steamcmd.exe");
    assert_eq!(tool_path(TargetOs::Linux, "/opt/s"), "/opt/s/steamcmd.sh");
    assert_eq!(tool_path(TargetOs::Macos, "/opt/s"), "/opt/s/steamcmd.sh");
    assert_eq!(tool_path(TargetOs::Other, "/opt/s"), "/opt/s/steamcmd.sh");
}

#[test]
fn is_installed_prefers_the_install_directory() {
    assert_eq!(
        is_installed("/h/RimRust/steamcmd/steamcmd.sh".to_string(), true, Some("/usr/bin/steamcmd".to_string())),
        Ok("/h/RimRust/steamcmd/steamcmd.sh".to_string())
    );
    assert_eq!(
        is_installed("/h/RimRust/steamcmd/steamcmd.sh".to_string(), true, None),
        Ok("/h/RimRust/steamcmd/steamcmd.sh".to_string())
    );
}

#[test]
fn is_installed_falls_back_to_the_search_path() {
    assert_eq!(
        is_installed("/h/RimRust/steamcmd/steamcmd.sh".to_string(), false, Some("/usr/bin/steamcmd".to_string())),
        Ok("/usr/bin/steamcmd".to_string())
    );
}

#[test]
fn is_installed_reports_absence() {
    assert_eq!(
        is_installed("C:/RimRust/steamcmd/steamcmd.exe".to_string(), false, None),
        Err("steamcmd is not installed".to_string())
    );
}

#[test]
fn fetch_command_on_windows() {
    let command = fetch_command(TargetOs::Windows, "C:/RimRust/steamcmd");
    assert_eq!(command.program, "powershell");
    assert_eq!(
        command.args,
        vec![
            "-Command",
            "Invoke-WebRequest -Uri https://steamcdn-a.akamaihd.net/client/installer/steamcmd.zip -OutFile steamcmd.zip; Expand-Archive steamcmd.zip -DestinationPath C:/RimRust/steamcmd; Remove-Item steamcmd.zip",
        ]
    );
}

#[test]
fn fetch_command_elsewhere() {
    for target in [TargetOs::Linux, TargetOs::Macos, TargetOs::Other] {
        let command = fetch_command(target, "/h/RimRust/steamcmd");
        assert_eq!(command.program, "sh");
        assert_eq!(
            command.args,
            vec![
                "-c",
                "curl -O https://steamcdn-a.akamaihd.net/client/installer/steamcmd_osx.tar.gz && mkdir -p /h/RimRust/steamcmd && tar -xvzf steamcmd_osx.tar.gz -C /h/RimRust/steamcmd && rm steamcmd_osx.tar.gz",
            ]
        );
    }
}

#[test]
fn nothing_is_fetched_when_a_launcher_is_present() {
    let dir = "/h/RimRust/steamcmd".to_string();
    for (script_exists, binary_exists) in [(true, false), (false, true), (true, true)] {
        assert_eq!(
            install(TargetOs::Linux, dir.clone(), Progress::Probed { script_exists, binary_exists }),
            InstallStep::Installed(dir.clone())
        );
    }
}

#[test]
fn installation_goes_through_directory_and_fetch() {
    let dir = "/h/RimRust/steamcmd".to_string();
    assert_eq!(
        install(TargetOs::Linux, dir.clone(), Progress::Probed { script_exists: false, binary_exists: false }),
        InstallStep::CreateDirectory
    );
    assert_eq!(
        install(TargetOs::Linux, dir.clone(), Progress::DirectoryCreated),
        InstallStep::Fetch(fetch_command(TargetOs::Linux, &dir))
    );
    assert_eq!(
        install(TargetOs::Windows, "C:/RimRust/steamcmd".to_string(), Progress::DirectoryCreated),
        InstallStep::Fetch(fetch_command(TargetOs::Windows, "C:/RimRust/steamcmd"))
    );
    assert_eq!(
        install(TargetOs::Linux, dir.clone(), Progress::Fetched { success: true }),
        InstallStep::Installed(dir)
    );
}

#[test]
fn installation_failures_are_reported() {
    let dir = "/h/RimRust/steamcmd".to_string();
    assert_eq!(
        install(TargetOs::Macos, dir.clone(), Progress::DirectoryFailed("Permission denied (os error 13)".to_string())),
        InstallStep::Failed("Permission denied (os error 13)".to_string())
    );
    assert_eq!(
        install(TargetOs::Windows, dir.clone(), Progress::Fetched { success: false }),
        InstallStep::Failed("Failed to install SteamCMD on Windows.".to_string())
    );
    for target in [TargetOs::Linux, TargetOs::Macos, TargetOs::Other] {
        assert_eq!(
            install(target, dir.clone(), Progress::Fetched { success: false }),
            InstallStep::Failed("Failed to install SteamCMD on Linux/macOS.".to_string())
        );
    }
}
