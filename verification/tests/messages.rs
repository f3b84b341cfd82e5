use rimrust::aggregate::AggregateResult;
use rimrust::invoker::{download_args, download_args_in, Invocation, ProcessResult, WORKSHOP_APP_ID};
use rimrust::item::Item;
use rimrust::outcome::{classify, FailedItem, TaskError, TaskOutcome};
use rimrust::report::{failure_message, outcome_message, start_message, success_message};

fn item(id: &str, name: &str) -> Item {
    Item::new(id.to_string(), name.to_string())
}

#[test]
fn download_arguments_are_the_three_directives() {
    assert_eq!(WORKSHOP_APP_ID, "294100");
    assert_eq!(
        download_args(&item("2009463077", "Harmony")),
        vec!["+login anonymous", "+workshop_download_item 294100 2009463077", "+quit"]
    );
    assert_eq!(
        download_args_in("107410", &item("450814997", "CBA")),
        vec!["+login anonymous", "+workshop_download_item 107410 450814997", "+quit"]
    );
    assert_eq!(download_args(&item("", "nameless"))[1], "+workshop_download_item 294100 ");
}

#[test]
fn progress_lines_name_the_item() {
    let harmony = item("2009463077", "Harmony");
    assert_eq!(start_message(&harmony), "Starting to install mod: Harmony with ID: 2009463077");
    assert_eq!(
        success_message(&harmony),
        "Successfully downloaded mod: Harmony with ID: 2009463077"
    );
    assert_eq!(
        outcome_message(&TaskOutcome::Success(item("7", "Seven"))),
        "Successfully downloaded mod: Seven with ID: 7"
    );
}

#[test]
fn failure_lines_carry_the_reason() {
    let process = FailedItem { item: item("2", "Beta"), error: TaskError::Process("not found".to_string()) };
    assert_eq!(
        failure_message(&process),
        "Failed to download mod: Beta with ID: 2. SteamCMD output: not found"
    );
    let launch = FailedItem {
        item: item("3", "Gamma"),
        error: TaskError::Launch("No such file or directory (os error 2)".to_string()),
    };
    assert_eq!(
        failure_message(&launch),
        "Failed to execute SteamCMD for mod: Gamma with ID: 3. Launch error: No such file or directory (os error 2)"
    );
    assert_eq!(outcome_message(&TaskOutcome::Failure(launch.clone())), failure_message(&launch));
}

#[test]
fn invocations_are_classified() {
    let ok = Invocation::Exited(ProcessResult { exit_success: true, stderr_text: "warn".to_string() });
    let bad = Invocation::Exited(ProcessResult { exit_success: false, stderr_text: "boom".to_string() });
    let none = Invocation::LaunchFailed("denied".to_string());
    assert_eq!(classify(ok.clone()), None);
    assert_eq!(classify(bad.clone()), Some(TaskError::Process("boom".to_string())));
    assert_eq!(classify(none.clone()), Some(TaskError::Launch("denied".to_string())));
    assert_eq!(TaskOutcome::from_invocation(item("1", "A"), ok), TaskOutcome::Success(item("1", "A")));
    assert_eq!(
        TaskOutcome::from_invocation(item("1", "A"), bad),
        TaskOutcome::Failure(FailedItem { item: item("1", "A"), error: TaskError::Process("boom".to_string()) })
    );
    assert!(!TaskOutcome::from_invocation(item("1", "A"), none).is_success());
}

#[test]
fn process_result_decodes_the_error_stream() {
    let plain = ProcessResult::from_output(false, b"ERROR! Download item 42 failed (Failure).\n");
    assert!(!plain.exit_success);
    assert_eq!(plain.stderr_text, "ERROR! Download item 42 failed (Failure).\n");
    let accented = ProcessResult::from_output(true, "d\u{e9}j\u{e0} vu".as_bytes());
    assert!(accented.exit_success);
    assert_eq!(accented.stderr_text, "d\u{e9}j\u{e0} vu");
    assert_eq!(ProcessResult::from_output(true, b"").stderr_text, "");
}

#[test]
fn malformed_bytes_become_replacement_characters() {
    let broken = ProcessResult::from_output(false, &[b'o', b'k', 0xff, b'!', 0xc3]);
    assert_eq!(broken.stderr_text, "ok\u{fffd}!\u{fffd}");
    assert_eq!(broken.stderr_text.chars().count(), 5);
}

#[test]
fn aggregate_of_outcomes_keeps_only_failures() {
    let outcomes = vec![
        TaskOutcome::Success(item("1", "A")),
        TaskOutcome::Failure(FailedItem { item: item("2", "B"), error: TaskError::Process("x".to_string()) }),
        TaskOutcome::Success(item("3", "C")),
        TaskOutcome::Failure(FailedItem { item: item("4", "D"), error: TaskError::Launch("y".to_string()) }),
    ];
    let result = AggregateResult::from_outcomes(&outcomes);
    assert!(!result.is_success());
    assert_eq!(result.failures.len(), 2);
    assert_eq!(result.failures[0].item.id, "2");
    assert_eq!(result.failures[1].item.id, "4");
    assert_eq!(
        result.into_result(),
        Err("Mod installation failed: Failed to download mod: B with ID: 2. SteamCMD output: x".to_string())
    );
    let none = AggregateResult::from_outcomes(&Vec::new());
    assert!(none.is_success());
    assert_eq!(none.into_result(), Ok(()));
    let launch_first = AggregateResult::from_outcomes(&outcomes[3..].to_vec());
    assert_eq!(
        launch_first.into_result(),
        Err("Mod installation failed: Failed to execute SteamCMD for mod: D with ID: 4. Launch error: y"
            .to_string())
    );
}
