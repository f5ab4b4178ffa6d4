use backend_dispatch::dispatch::combine_output;
use backend_dispatch::dispatch::dispatch_args;
use backend_dispatch::dispatch::plan_dispatch;
use backend_dispatch::dispatch::plan_invocation;
use backend_dispatch::dispatch::select_artifact;
use backend_dispatch::dispatch::spawn_failure_message;
use backend_dispatch::dispatch::BackendArtifact;

#[test]
fn argument_construction_is_exact() {
    let args = dispatch_args("/tmp/x");
    assert_eq!(args, vec!["--exports-dir=/tmp/x".to_string(), "--max-workers=4".to_string()]);
}

#[test]
fn only_local_script_present_runs_interpreter_with_script_path() {
    let inv = plan_dispatch("/cwd", false, false, false, true, "/tmp/x").unwrap();
    assert_eq!(inv.program, "python3");
    assert_eq!(
        inv.args,
        vec![
            "/cwd/Backend/MessagesWrapped.py".to_string(),
            "--exports-dir=/tmp/x".to_string(),
            "--max-workers=4".to_string(),
        ]
    );
}

#[test]
fn primary_binary_wins_over_everything() {
    let inv = plan_dispatch("/cwd", true, true, true, true, "/tmp/x").unwrap();
    assert_eq!(inv.program, "/cwd/src-tauri/binaries/MessagesWrapped");
    assert_eq!(
        inv.args,
        vec!["--exports-dir=/tmp/x".to_string(), "--max-workers=4".to_string()]
    );
}

#[test]
fn alternate_binary_location_is_second() {
    let inv = plan_dispatch("/cwd", false, true, true, true, "/tmp/x").unwrap();
    assert_eq!(inv.program, "/cwd/binaries/MessagesWrapped");
}

#[test]
fn sibling_script_is_probed_before_local_script() {
    let inv = plan_dispatch("/cwd", false, false, true, true, "/tmp/x").unwrap();
    assert_eq!(inv.program, "python3");
    assert_eq!(inv.args[0], "/cwd/../Backend/MessagesWrapped.py");
}

#[test]
fn nothing_present_names_last_checked_script() {
    let err = plan_dispatch("/cwd", false, false, false, false, "/tmp/x").unwrap_err();
    assert_eq!(
        err,
        "No backend binary or script found. Checked /cwd/Backend/MessagesWrapped.py"
    );
}

#[test]
fn artifact_selection_matches_planned_invocation() {
    let artifact = select_artifact("/cwd", false, false, false, true);
    match &artifact {
        BackendArtifact::Script { interpreter, path } => {
            assert_eq!(interpreter, "python3");
            assert_eq!(path, "/cwd/Backend/MessagesWrapped.py");
        },
        _ => panic!("expected the script artifact"),
    }
    let inv = plan_invocation(&artifact, "/tmp/x").unwrap();
    assert_eq!(inv.args.len(), 3);
}

#[test]
fn combined_output_is_stdout_then_stderr() {
    assert_eq!(combine_output("out", "err", true).unwrap(), "outerr");
    assert_eq!(combine_output("out", "err", false).unwrap_err(), "outerr");
}

#[test]
fn spawn_failures_are_tagged_by_variant() {
    assert_eq!(spawn_failure_message(true, "nope"), "Failed to execute binary: nope");
    assert_eq!(spawn_failure_message(false, "gone"), "Failed to spawn python3: gone");
}
