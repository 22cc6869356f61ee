use batch_renamer::batch::{Orchestrator, DRY_RUN_LIMIT, RENAME_LIMIT};
use batch_renamer::confirm::{needs_confirmation, parse_response, Decision};
use batch_renamer::errors::RenameError;
use batch_renamer::pathname::split_path;
use batch_renamer::plan::{interpret_listing, make_simulation_result, plan_rename_invocation};

fn strings(parts: &[&str]) -> Vec<String> {
    parts.iter().map(|p| p.to_string()).collect()
}

/// What one file's dry run proposes when the external command turns the
/// placeholder's name to upper case.
fn uppercase_name(name: &str) -> String {
    name.to_uppercase()
}

/// Drive one file through the dry-run pipeline with a stubbed external
/// command and return the proposed destination path.
fn simulate(command: &[&str], src_path: &str, transform: impl Fn(&str) -> String) -> String {
    let (_, src_name) = split_path(src_path).unwrap();
    let tmp_dir = "/tmp/sim";
    let inv = plan_rename_invocation(&strings(command), &src_name, tmp_dir).unwrap();
    assert_eq!(inv.dir, tmp_dir);
    let placeholder = inv.args.last().unwrap().clone();
    let listing = vec![transform(&placeholder)];
    let proposed = interpret_listing(&listing, tmp_dir).unwrap();
    let sr = make_simulation_result(src_path, &proposed).unwrap();
    sr.dst
}

#[test]
fn uppercase_example_proposes_and_applies_both_renames() {
    let files = ["/work/a.txt", "/work/b.txt"];
    let command = ["uppercase-ext"];
    let mut orch = Orchestrator::new(strings(&command), strings(&files));

    let mut proposed = Vec::new();
    for file in files {
        assert!(orch.can_start_sim());
        let req = orch.start_sim();
        let dst = simulate(&command, &req.file, uppercase_name);
        orch.sim_finished();
        proposed.push((req.file, dst));
    }
    assert_eq!(proposed[0].1, "/work/A.TXT");
    assert_eq!(proposed[1].1, "/work/B.TXT");

    for (src, dst) in proposed {
        let (_, src_name) = split_path(&src).unwrap();
        let (_, dst_name) = split_path(&dst).unwrap();
        assert!(needs_confirmation(&src_name, &dst_name));
        assert_eq!(parse_response(&vec![b'y']), Some(Decision::Accept));
        assert!(orch.can_start_rename());
        orch.start_rename(src);
    }
    assert_eq!(orch.accepted, strings(&files));

    orch.rename_finished(Ok(()));
    orch.rename_finished(Ok(()));
    assert!(orch.into_result().is_ok());
}

#[test]
fn identity_command_prompts_nothing_and_renames_nothing() {
    let files = ["/work/a.txt", "/work/b.txt"];
    let mut orch = Orchestrator::new(strings(&["true"]), strings(&files));
    for file in files {
        let req = orch.start_sim();
        let dst = simulate(&["true"], &req.file, |name| name.to_string());
        orch.sim_finished();
        assert_eq!(dst, file);
        let (_, src_name) = split_path(&req.file).unwrap();
        let (_, dst_name) = split_path(&dst).unwrap();
        assert!(!needs_confirmation(&src_name, &dst_name));
    }
    assert!(orch.accepted.is_empty());
    assert_eq!(orch.renames_active, 0);
    assert!(orch.into_result().is_ok());
}

/// A command that is its own inverse: it swaps the two fixed names.
fn swap_ab(name: &str) -> String {
    if name == "a.txt" {
        "b.txt".to_string()
    } else if name == "b.txt" {
        "a.txt".to_string()
    } else {
        name.to_string()
    }
}

#[test]
fn self_inverse_command_round_trips_names() {
    let originals = ["/work/a.txt", "/work/b.txt"];
    let mut current: Vec<String> = strings(&originals);
    for _pass in 0..2 {
        let mut next = Vec::new();
        for src in &current {
            let dst = simulate(&["swap"], src, swap_ab);
            next.push(dst);
        }
        current = next;
    }
    assert_eq!(current, strings(&originals));
}

#[test]
fn quit_keeps_every_accepted_rename() {
    let files = ["/work/a.txt", "/work/b.txt", "/work/c.txt"];
    let mut orch = Orchestrator::new(strings(&["upper"]), strings(&files));

    let first = orch.start_sim();
    orch.sim_finished();
    orch.start_rename(first.file);

    assert_eq!(parse_response(&vec![b'q']), Some(Decision::Quit));
    orch.quit();

    assert!(!orch.can_start_sim());
    assert_eq!(orch.accepted, strings(&["/work/a.txt"]));
    assert_eq!(orch.renames_active, 1);

    orch.rename_finished(Ok(()));
    assert!(orch.into_result().is_ok());
}

#[test]
fn vanished_placeholder_is_reported_not_panicked() {
    let listing: Vec<String> = Vec::new();
    match interpret_listing(&listing, "/tmp/sim9") {
        Err(RenameError::VanishedError { dir }) => assert_eq!(dir, "/tmp/sim9"),
        other => panic!("unexpected result: {:?}", other),
    }
}

#[test]
fn no_more_than_the_cap_of_dry_runs_at_once() {
    let files: Vec<String> = (0..40).map(|i| format!("/work/f{}.txt", i)).collect();
    let mut orch = Orchestrator::new(strings(&["upper"]), files);
    let mut started = 0;
    while orch.can_start_sim() {
        orch.start_sim();
        started += 1;
    }
    assert_eq!(started, DRY_RUN_LIMIT);
    assert_eq!(orch.sims_active, DRY_RUN_LIMIT);

    orch.sim_finished();
    assert!(orch.can_start_sim());
    orch.start_sim();
    assert_eq!(orch.sims_active, DRY_RUN_LIMIT);
}

#[test]
fn no_more_than_the_cap_of_real_renames_at_once() {
    let mut orch = Orchestrator::new(strings(&["upper"]), Vec::new());
    for i in 0..RENAME_LIMIT {
        assert!(orch.can_start_rename());
        orch.start_rename(format!("/work/f{}.txt", i));
    }
    assert!(!orch.can_start_rename());
    assert_eq!(orch.renames_active, RENAME_LIMIT);

    orch.rename_finished(Ok(()));
    assert!(orch.can_start_rename());
}

#[test]
fn failures_are_aggregated_not_short_circuited() {
    let mut orch = Orchestrator::new(strings(&["upper"]), strings(&["/w/a", "/w/b", "/w/c"]));
    orch.start_rename("/w/a".to_string());
    orch.start_rename("/w/b".to_string());
    orch.start_rename("/w/c".to_string());
    orch.rename_finished(Err(RenameError::SpawnError { command: "upper a".to_string() }));
    orch.rename_finished(Ok(()));
    orch.rename_finished(Err(RenameError::TaskPanic));
    match orch.into_result() {
        Err(agg) => {
            assert_eq!(agg.failures.len(), 2);
            assert!(matches!(
                agg.failures[0],
                RenameError::SpawnError { ref command } if command == "upper a"
            ));
            assert!(matches!(agg.failures[1], RenameError::TaskPanic));
        },
        Ok(()) => panic!("aggregate should hold the two failures"),
    }
}

#[test]
fn an_empty_batch_succeeds() {
    let orch = Orchestrator::new(strings(&["upper"]), Vec::new());
    assert!(!orch.can_start_sim());
    assert!(orch.into_result().is_ok());
}
