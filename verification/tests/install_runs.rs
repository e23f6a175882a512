use oqtopus::environment::Environment;
use oqtopus::manager::operations::{manager_install, manager_uninstall, manager_update};
use oqtopus::backend::operations::backend_install;
use oqtopus::operation_run::{
    new_operation_run, operation_mode, operation_next, OperationEvent, OperationRun, OperationStep, Work,
};

fn strings(words: &[&str]) -> Vec<String> {
    words.iter().map(|w| w.to_string()).collect()
}

fn environment() -> Environment {
    Environment {
        root: "/env".to_owned(),
        install_root: "/releases".to_owned(),
        metadata: "template=manager\n".to_owned(),
    }
}

fn run_for(plan: oqtopus::operations::OperationPlan) -> OperationRun {
    let mode = operation_mode(plan).ok().expect("work to do");
    new_operation_run(environment(), mode)
}

fn perform(step: OperationStep) -> (Vec<String>, Work) {
    match step {
        OperationStep::Perform(lines, work) => (lines, work),
        OperationStep::Finish(result) => panic!("finished early: {:?}", result.err()),
    }
}

#[test]
fn manager_install_release_downloads_the_tag_archive() {
    let plan = manager_install(&strings(&["v1.2.3"]), Ok(environment())).ok().expect("plan");
    let mut run = run_for(plan);
    let (_, work) = perform(operation_next(&mut run, OperationEvent::Done));
    assert!(matches!(work, Work::EnsureCommand(ref c) if c == "uv"));
    let (_, work) = perform(operation_next(&mut run, OperationEvent::Flag(true)));
    assert!(matches!(work, Work::CreateDir(ref d) if d == "/releases"));
    let (_, work) = perform(operation_next(&mut run, OperationEvent::Done));
    match work {
        Work::AllDirs(dirs) => assert_eq!(dirs, vec!["/releases/manager-v1.2.3/.venv".to_owned()]),
        _ => panic!("completeness was not checked"),
    }
    let (_, work) = perform(operation_next(&mut run, OperationEvent::Flag(false)));
    assert!(matches!(work, Work::PathExists(ref p) if p == "/releases/manager-v1.2.3"));
    let (lines, work) = perform(operation_next(&mut run, OperationEvent::Flag(false)));
    assert_eq!(lines, vec!["Installing manager v1.2.3".to_owned()]);
    assert!(matches!(work, Work::Fetch(ref u) if u == "https://github.com/oqtopus-team/oqtopus-manager/archive/refs/tags/v1.2.3.tar.gz"));
    let (_, work) = perform(operation_next(&mut run, OperationEvent::Done));
    assert!(matches!(work, Work::Extract(ref t) if t == "/releases/manager-v1.2.3"));
    let (_, work) = perform(operation_next(&mut run, OperationEvent::Done));
    assert!(matches!(work, Work::UvSync(ref t) if t == "/releases/manager-v1.2.3"));
    let (_, work) = perform(operation_next(&mut run, OperationEvent::Done));
    assert!(matches!(work, Work::SetBinding(ref k, ref v) if k == "manager_version" && v == "v1.2.3"));
    let (lines, work) = perform(operation_next(&mut run, OperationEvent::Done));
    assert_eq!(lines, vec!["Bound manager_version=v1.2.3".to_owned()]);
    assert!(matches!(work, Work::Nothing));
    match operation_next(&mut run, OperationEvent::Done) {
        OperationStep::Finish(Ok(outcome)) => assert_eq!(outcome.exit_code(), 0),
        _ => panic!("install did not succeed"),
    }
}

#[test]
fn manager_install_branch_writes_metadata_binding() {
    let plan = manager_install(&strings(&["branch:feature/x"]), Ok(environment())).ok().expect("plan");
    let mut run = run_for(plan);
    perform(operation_next(&mut run, OperationEvent::Done));
    let (_, work) = perform(operation_next(&mut run, OperationEvent::Flag(true)));
    assert!(matches!(work, Work::PathExists(ref p) if p == "/env/manager"));
    let (lines, work) = perform(operation_next(&mut run, OperationEvent::Flag(true)));
    assert_eq!(lines, vec!["Removing existing branch installation: /env/manager".to_owned()]);
    assert!(matches!(work, Work::RemovePath(_)));
    let (lines, work) = perform(operation_next(&mut run, OperationEvent::Done));
    assert_eq!(lines, vec!["Downloading manager from branch 'feature/x'".to_owned()]);
    assert!(matches!(work, Work::ResolveBranch(ref r, ref b) if r == "oqtopus-team/oqtopus-manager" && b == "feature/x"));
    let (_, work) = perform(operation_next(&mut run, OperationEvent::Text("abc123".to_owned())));
    assert!(matches!(work, Work::Fetch(ref u) if u == "https://github.com/oqtopus-team/oqtopus-manager/archive/abc123.tar.gz"));
    perform(operation_next(&mut run, OperationEvent::Done));
    let (_, work) = perform(operation_next(&mut run, OperationEvent::Done));
    assert!(matches!(work, Work::UvSync(ref t) if t == "/env/manager"));
    let (_, work) = perform(operation_next(&mut run, OperationEvent::Done));
    assert!(matches!(work, Work::SetBinding(ref k, ref v) if k == "manager_version" && v == "branch:feature/x"));
}

#[test]
fn manager_update_resolves_and_installs_the_latest_release() {
    let plan = manager_update(&Vec::new(), Ok(environment())).ok().expect("plan");
    let mut run = run_for(plan);
    perform(operation_next(&mut run, OperationEvent::Done));
    let (_, work) = perform(operation_next(&mut run, OperationEvent::Flag(true)));
    assert!(matches!(work, Work::FetchTags(ref r) if r == "oqtopus-team/oqtopus-manager"));
    let tags = strings(&["v1.0.9", "v1.0.10", "not-a-release"]);
    let (_, work) = perform(operation_next(&mut run, OperationEvent::Tags(tags)));
    assert!(matches!(work, Work::CreateDir(_)));
    let (_, work) = perform(operation_next(&mut run, OperationEvent::Done));
    assert!(matches!(work, Work::AllDirs(ref d) if d[0] == "/releases/manager-v1.0.10/.venv"));
    let (lines, _) = perform(operation_next(&mut run, OperationEvent::Flag(true)));
    assert_eq!(lines, vec!["manager v1.0.10 is already installed; reusing /releases/manager-v1.0.10".to_owned()]);
}

#[test]
fn failures_end_the_operation_with_their_messages() {
    let plan = manager_update(&Vec::new(), Ok(environment())).ok().expect("plan");
    let mut run = run_for(plan);
    perform(operation_next(&mut run, OperationEvent::Done));
    match operation_next(&mut run, OperationEvent::Flag(false)) {
        OperationStep::Finish(Err(m)) => assert_eq!(m, "'uv' is required but was not found on PATH."),
        _ => panic!("missing uv was not an error"),
    }
    let plan = manager_update(&Vec::new(), Ok(environment())).ok().expect("plan");
    let mut run = run_for(plan);
    perform(operation_next(&mut run, OperationEvent::Done));
    perform(operation_next(&mut run, OperationEvent::Flag(true)));
    match operation_next(&mut run, OperationEvent::Tags(strings(&["main"]))) {
        OperationStep::Finish(Err(m)) => assert_eq!(
            m,
            "could not resolve a latest stable version from GitHub tags for oqtopus-team/oqtopus-manager."
        ),
        _ => panic!("no stable tag was not an error"),
    }
    let plan = manager_install(&strings(&["v1"]), Ok(environment())).ok().expect("plan");
    let mut run = run_for(plan);
    perform(operation_next(&mut run, OperationEvent::Done));
    perform(operation_next(&mut run, OperationEvent::Flag(true)));
    match operation_next(&mut run, OperationEvent::WriteFailed("broken pipe".to_owned())) {
        OperationStep::Finish(Err(m)) => assert_eq!(m, "failed to write progress: broken pipe"),
        _ => panic!("write failure was not an error"),
    }
}

#[test]
fn engine_install_syncs_every_project_and_can_skip_the_image() {
    let plan = backend_install(&strings(&["engine", "v2.0.0", "--skip-sse-build"]), Ok(environment())).ok().expect("plan");
    let mut run = run_for(plan);
    perform(operation_next(&mut run, OperationEvent::Done));
    perform(operation_next(&mut run, OperationEvent::Flag(true)));
    perform(operation_next(&mut run, OperationEvent::Done));
    perform(operation_next(&mut run, OperationEvent::Flag(false)));
    perform(operation_next(&mut run, OperationEvent::Flag(false)));
    perform(operation_next(&mut run, OperationEvent::Done));
    let (_, work) = perform(operation_next(&mut run, OperationEvent::Done));
    assert!(matches!(work, Work::IsFile(ref f) if f == "/releases/engine-v2.0.0/core/pyproject.toml"));
    for project in ["core", "combiner", "estimator", "mitigator"] {
        let (_, work) = perform(operation_next(&mut run, OperationEvent::Flag(true)));
        assert!(matches!(work, Work::UvSync(ref d) if *d == format!("/releases/engine-v2.0.0/{project}")));
        let step = operation_next(&mut run, OperationEvent::Done);
        if project == "mitigator" {
            let (lines, work) = perform(step);
            assert_eq!(lines, vec!["Skipping sse_runtime Docker image build for engine v2.0.0.".to_owned()]);
            assert!(matches!(work, Work::SetBinding(ref k, _) if k == "engine_version"));
        }
    }
}

#[test]
fn manager_uninstall_branch_clears_metadata_binding() {
    let plan = manager_uninstall(&strings(&["branch:dev"]), Ok(environment())).ok().expect("plan");
    let mut run = run_for(plan);
    let (_, work) = perform(operation_next(&mut run, OperationEvent::Done));
    assert!(matches!(work, Work::IsDir(ref d) if d == "/env/manager"));
    let (_, work) = perform(operation_next(&mut run, OperationEvent::Flag(true)));
    assert!(matches!(work, Work::RemovePath(_)));
    let (_, work) = perform(operation_next(&mut run, OperationEvent::Done));
    assert!(matches!(work, Work::UnsetBinding(ref k) if k == "manager_version"));
    let (lines, _) = perform(operation_next(&mut run, OperationEvent::Done));
    assert_eq!(lines, vec!["Removed /env/manager".to_owned()]);
    assert!(matches!(operation_next(&mut run, OperationEvent::Done), OperationStep::Finish(Ok(_))));

    let plan = manager_uninstall(&strings(&["v3"]), Ok(environment())).ok().expect("plan");
    let mut run = run_for(plan);
    perform(operation_next(&mut run, OperationEvent::Done));
    match operation_next(&mut run, OperationEvent::Flag(false)) {
        OperationStep::Finish(Err(m)) => assert_eq!(m, "installed release not found: /releases/manager-v3"),
        _ => panic!("missing release was not an error"),
    }
}
