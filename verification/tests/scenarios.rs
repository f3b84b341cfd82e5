use rimrust::aggregate::AggregateResult;
use rimrust::invoker::{Invocation, ProcessResult};
use rimrust::item::Item;
use rimrust::orchestrator::{Action, Orchestrator, Refusal};
use rimrust::outcome::{TaskError, TaskOutcome};
use rimrust::phase::Phase;
use rimrust::steamcmd::mods::{install_all, MAX_CONCURRENT_DOWNLOADS};
use rimrust::steamcmd::install_mods;

fn item(id: &str, name: &str) -> Item {
    Item::new(id.to_string(), name.to_string())
}

fn exited(success: bool, stderr: &str) -> Invocation {
    Invocation::Exited(ProcessResult { exit_success: success, stderr_text: stderr.to_string() })
}

#[test]
fn single_item_that_succeeds_gives_success() {
    let result = install_all(vec![(item("1", "Alpha"), exited(true, ""))], 2);
    assert!(result.is_success());
    assert!(result.failures.is_empty());
    assert_eq!(result.into_result(), Ok(()));
}

#[test]
fn single_item_step_by_step() {
    let mut run = Orchestrator::new(vec![item("1", "Alpha")], 2);
    assert_eq!(run.next_action(), Action::Admit(0));
    assert_eq!(run.admit_item(0), Ok(()));
    assert_eq!(run.next_action(), Action::Invoke(0));
    let args = run.invoke(0).unwrap();
    assert_eq!(
        args,
        vec![
            "+login anonymous".to_string(),
            "+workshop_download_item 294100 1".to_string(),
            "+quit".to_string(),
        ]
    );
    assert_eq!(run.next_action(), Action::Wait);
    assert!(run.result().is_none());
    let outcome = run.complete(0, exited(true, "")).unwrap();
    assert_eq!(outcome, TaskOutcome::Success(item("1", "Alpha")));
    assert_eq!(run.next_action(), Action::Finish);
    assert!(run.result().unwrap().is_success());
}

#[test]
fn second_item_fails_first_still_succeeds() {
    let work = vec![
        (item("1", "Alpha"), exited(true, "")),
        (item("2", "Beta"), exited(false, "not found")),
    ];
    let result = install_all(work, 1);
    assert!(!result.is_success());
    assert_eq!(result.failures.len(), 1);
    assert_eq!(result.failures[0].item, item("2", "Beta"));
    assert_eq!(result.failures[0].error, TaskError::Process("not found".to_string()));
    assert_eq!(
        result.into_result(),
        Err("Mod installation failed: Failed to download mod: Beta with ID: 2. SteamCMD output: not found"
            .to_string())
    );
}

#[test]
fn gate_of_one_serialises_two_items() {
    let mut run = Orchestrator::new(vec![item("1", "Alpha"), item("2", "Beta")], 1);
    assert_eq!(run.next_action(), Action::Admit(0));
    run.admit_item(0).unwrap();
    // Beta cannot get in while Alpha holds the only slot.
    assert_eq!(run.admit_item(1), Err(Refusal::GateFull));
    assert_eq!(run.phase(1), Some(Phase::Pending));
    assert_eq!(run.next_action(), Action::Invoke(0));
    run.invoke(0).unwrap();
    assert_eq!(run.admit_item(1), Err(Refusal::GateFull));
    assert_eq!(run.next_action(), Action::Wait);

    let alpha = run.complete(0, exited(true, "")).unwrap();
    assert!(alpha.is_success());
    // Alpha's permit is back before Beta is admitted.
    assert_eq!(run.gate().in_use(), 0);
    assert_eq!(run.gate().released(), 1);
    assert_eq!(run.phase(0), Some(Phase::Succeeded));
    assert_eq!(run.phase(1), Some(Phase::Pending));

    assert_eq!(run.next_action(), Action::Admit(1));
    run.admit_item(1).unwrap();
    let args = run.invoke(1).unwrap();
    assert_eq!(args[1], "+workshop_download_item 294100 2");
    let beta = run.complete(1, exited(false, "not found")).unwrap();
    assert!(!beta.is_success());
    assert_eq!(beta.item().name, "Beta");

    assert_eq!(run.next_action(), Action::Finish);
    assert_eq!(run.outcome(0), Some(TaskOutcome::Success(item("1", "Alpha"))));
    let result: AggregateResult = run.result().unwrap();
    assert_eq!(result.failures.len(), 1);
    assert_eq!(result.failures[0].item.name, "Beta");
    assert_eq!(result.failures[0].error.diagnostic(), "not found");
}

/// Runs `durations.len()` items under `cap` slots on a simulated clock and
/// returns the largest number of invocations and of permits seen at once.
fn high_water_marks(durations: &[u64], cap: usize) -> (usize, usize) {
    let items: Vec<Item> =
        (0..durations.len()).map(|i| item(&i.to_string(), &format!("mod {}", i))).collect();
    let mut run = Orchestrator::new(items, cap);
    let mut clock: u64 = 0;
    let mut running: Vec<(u64, usize)> = Vec::new();
    let mut most_running = 0;
    let mut most_permits = 0;
    loop {
        match run.next_action() {
            Action::Admit(i) => run.admit_item(i).unwrap(),
            Action::Invoke(i) => {
                run.invoke(i).unwrap();
                running.push((clock + durations[i], i));
            }
            Action::Wait => {
                let next = (0..running.len()).min_by_key(|&k| running[k]).unwrap();
                let (ends, i) = running.remove(next);
                clock = ends;
                run.complete(i, exited(true, "")).unwrap();
            }
            Action::Finish => break,
        }
        assert_eq!(
            running.len(),
            (0..durations.len()).filter(|&i| run.phase(i) == Some(Phase::Invoking)).count()
        );
        most_running = most_running.max(running.len());
        most_permits = most_permits.max(run.gate().in_use());
    }
    assert!(running.is_empty());
    (most_running, most_permits)
}

#[test]
fn five_items_never_more_than_two_at_once() {
    let (most_running, most_permits) = high_water_marks(&[30, 10, 25, 5, 40], 2);
    assert_eq!(most_running, 2);
    assert_eq!(most_permits, 2);
}

#[test]
fn concurrency_stays_within_cap_for_several_caps() {
    let durations = [7, 3, 9, 1, 4, 4, 8, 2];
    for cap in 1..=10 {
        let (most_running, most_permits) = high_water_marks(&durations, cap);
        assert!(most_running <= cap);
        assert!(most_permits <= cap);
        assert_eq!(most_running, cap.min(durations.len()));
    }
}

#[test]
fn install_mods_runs_two_at_a_time() {
    assert_eq!(MAX_CONCURRENT_DOWNLOADS, 2);
    assert_eq!(install_mods(Vec::new()), Ok(()));
    assert_eq!(
        install_mods(vec![
            (item("10", "Ten"), exited(true, "")),
            (item("11", "Eleven"), exited(true, "noise")),
        ]),
        Ok(())
    );
    assert_eq!(
        install_mods(vec![
            (item("10", "Ten"), exited(false, "first")),
            (item("11", "Eleven"), exited(false, "second")),
        ]),
        Err("Mod installation failed: Failed to download mod: Ten with ID: 10. SteamCMD output: first"
            .to_string())
    );
}
