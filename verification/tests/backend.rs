use oqtopus::backend::lifecycle::{backend_command, backend_start, backend_stop};
use oqtopus::backend::operations::{backend_build, backend_install, backend_uninstall, backend_update};
use oqtopus::backend::services::BackendService;
use oqtopus::backend::{backend_info, backend_status, backend_status_pid_files};
use oqtopus::cli::exit_status;
use oqtopus::environment::{validate_environment, Environment};
use oqtopus::lifecycle::{LifecycleOutput, LifecyclePlan};
use oqtopus::operations::{OperationKind, OperationPlan, VersionRequest};
use oqtopus::text::write_error;

const ROOT: &str = "/tmp/characterization";
const WORK: &str = "/tmp/characterization/work";

fn strings(words: &[&str]) -> Vec<String> {
    words.iter().map(|w| w.to_string()).collect()
}

fn environment(extra: &str) -> Environment {
    let metadata = format!(
        "template=backend\nenvironment_name=characterization\nenvironment_root={WORK}\ninstall_root={ROOT}/releases\n{extra}"
    );
    validate_environment("backend", WORK, Some(&metadata)).expect("valid backend environment")
}

#[test]
fn backend_info_rejects_bare_template_key() {
    let metadata = format!("template\ninstall_root={ROOT}/releases\nenvironment_root={WORK}\n");
    let environment = validate_environment("backend", WORK, Some(&metadata));
    let result = backend_info(&Vec::new(), environment);
    let error = result.err().expect("bare template key is refused");
    let outcome: Result<i32, String> = Err(error.clone());
    assert_eq!(exit_status(&outcome), 1);
    let mut stderr = String::new();
    write_error(&mut stderr, &error);
    assert_eq!(stderr.as_bytes(), b"Error: invalid .metadata: missing template.\n");
}

#[test]
fn backend_info_outputs_metadata() {
    let env = environment("engine_version=v1.2.3\n");
    let metadata = env.metadata.clone();
    let info = backend_info(&Vec::new(), Ok(env)).ok().expect("info");
    assert_eq!(info.metadata, metadata);
    assert!(info.metadata.contains("engine_version=v1.2.3\n"));
}

#[test]
fn backend_info_rejects_arguments() {
    let result = backend_info(&strings(&["unexpected"]), Ok(environment("")));
    assert_eq!(result.err().as_deref(), Some("oqtopus backend info does not accept arguments."));
}

#[test]
fn backend_info_rejects_missing_metadata() {
    let result = validate_environment("backend", WORK, None);
    assert_eq!(
        result.err().as_deref(),
        Some("no .metadata found in the current directory; run this command from the root of a backend environment.")
    );
}

#[test]
fn backend_info_rejects_wrong_template() {
    let metadata = format!("template=manager\ninstall_root={ROOT}/releases\nenvironment_root={WORK}\n");
    let result = validate_environment("backend", WORK, Some(&metadata));
    assert_eq!(
        result.err().as_deref(),
        Some("this command requires a backend environment, but .metadata declares template=manager.")
    );
}

#[test]
fn backend_info_rejects_missing_install_root() {
    let metadata = format!("template=backend\nenvironment_root={WORK}\n");
    let result = validate_environment("backend", WORK, Some(&metadata));
    assert_eq!(result.err().as_deref(), Some("invalid .metadata: missing install_root."));
}

#[test]
fn backend_info_rejects_mismatched_environment_root() {
    let metadata = format!(
        "template=backend\ninstall_root={ROOT}/releases\nenvironment_root={ROOT}/elsewhere\n"
    );
    let result = validate_environment("backend", WORK, Some(&metadata));
    assert_eq!(
        result.err().as_deref(),
        Some("environment_root in .metadata does not match the current directory: /tmp/characterization/elsewhere")
    );
}

#[test]
fn legacy_environment_root_is_accepted() {
    let metadata = format!("template=backend\ninstall_root={ROOT}/releases\nenv_root={WORK}\n");
    let env = validate_environment("backend", WORK, Some(&metadata)).ok().expect("legacy root");
    assert_eq!(env.root, WORK);
}

#[test]
fn backend_status_reports_each_service_in_order() {
    let env = environment("");
    let files = backend_status_pid_files(&env);
    assert_eq!(files[0], format!("{WORK}/pids/core.pid"));
    let pids: Vec<Option<u32>> = (0..files.len()).map(|i| if i == 0 { Some(42) } else { None }).collect();
    let status = backend_status(&Vec::new(), Ok(env), &pids).ok().expect("status");
    assert_eq!(status.services.len(), files.len());
    assert_eq!(status.services[0].pid, Some(42));
    assert_eq!(status.services[1].pid, None);
}

#[test]
fn backend_start_plans_usage_and_errors() {
    match backend_start(&strings(&["help"]), Err("unused".to_owned())) {
        Ok(LifecyclePlan::Done(o)) => assert_eq!(o.exit_code, 0),
        _ => panic!("help did not show usage"),
    }
    match backend_start(&Vec::new(), Ok(environment(""))) {
        Ok(LifecyclePlan::Done(o)) => {
            assert_eq!(o.exit_code, 1);
            assert!(matches!(o.output, LifecycleOutput::Usage(_)));
        },
        _ => panic!("no target did not show usage"),
    }
    assert_eq!(
        backend_start(&strings(&["all", "--foreground"]), Ok(environment(""))).err().as_deref(),
        Some("oqtopus backend start all does not support --foreground. Start one service at a time in foreground mode.")
    );
    assert_eq!(
        backend_start(&strings(&["nope"]), Ok(environment(""))).err().as_deref(),
        Some("unknown service: nope")
    );
    match backend_stop(&strings(&["all"]), Ok(environment(""))) {
        Ok(LifecyclePlan::Run(run)) => assert!(!run.steps.is_empty()),
        _ => panic!("stop all did not plan a run"),
    }
}

#[test]
fn backend_command_runs_the_bound_release() {
    let env = environment("engine_version=v1.2.3\n");
    let command = backend_command(&env, BackendService::Core, true).ok().expect("command");
    assert_eq!(command.program, "uv");
    assert_eq!(command.args[0], "run");
    assert_eq!(command.args[2], format!("{ROOT}/releases/engine-v1.2.3/core"));
    let missing = backend_command(&environment(""), BackendService::Core, true).err().expect("unbound");
    assert!(missing.starts_with("cannot start 'core'. Missing engine_version"), "{missing}");
    let absent = backend_command(&env, BackendService::Core, false).err().expect("no directory");
    assert!(absent.contains("Installed release directory not found"), "{absent}");
}

#[test]
fn backend_operations_plan_requests() {
    match backend_install(&strings(&["engine", "branch:main", "--skip-sse-build"]), Ok(environment(""))) {
        Ok(OperationPlan::Install(reqs)) => {
            assert_eq!(reqs.len(), 1);
            assert!(reqs[0].skip_sse_build);
            assert!(reqs[0].version == VersionRequest::Branch("main".to_owned()));
        },
        _ => panic!("branch install was not planned"),
    }
    assert_eq!(
        backend_install(&strings(&["engine", "branch:"]), Ok(environment(""))).err().as_deref(),
        Some("invalid branch version format: branch: (expected branch:<branch>)")
    );
    assert_eq!(
        backend_install(&strings(&["tranqu", "--skip-sse-build"]), Ok(environment(""))).err().as_deref(),
        Some("--skip-sse-build is only supported for 'engine' and 'all'.")
    );
    assert_eq!(
        backend_install(&strings(&["engine", "--bogus"]), Ok(environment(""))).err().as_deref(),
        Some("unknown install option: --bogus")
    );
    assert_eq!(
        backend_install(&strings(&["all", "v1"]), Ok(environment(""))).err().as_deref(),
        Some("oqtopus backend install all does not accept a version argument.")
    );
    match backend_install(&strings(&["engine", "v1", "v2"]), Ok(environment(""))) {
        Ok(OperationPlan::Done(o)) => assert!(o.usage == Some(OperationKind::BackendInstall) && o.exit_code == 1),
        _ => panic!("two versions did not show usage"),
    }
    match backend_install(&strings(&["all"]), Ok(environment(""))) {
        Ok(OperationPlan::Install(reqs)) => assert_eq!(reqs.len(), 3),
        _ => panic!("install all was not planned"),
    }
    assert_eq!(
        backend_uninstall(&strings(&["nope", "v1"]), Ok(environment(""))).err().as_deref(),
        Some("unknown component: nope")
    );
    match backend_update(&strings(&["gateway"]), Ok(environment(""))) {
        Ok(OperationPlan::Install(reqs)) => assert!(reqs[0].version == VersionRequest::Latest),
        _ => panic!("update was not planned"),
    }
    assert_eq!(
        backend_build(&strings(&["sse-runtime"]), Ok(environment("")), true, true).err().as_deref(),
        Some("engine is not installed in this backend environment.")
    );
    assert_eq!(
        backend_build(&strings(&["sse-runtime"]), Ok(environment("engine_version=v1\n")), true, false).err().as_deref(),
        Some("engine v1 is not completely installed in this backend environment.")
    );
}

use oqtopus::metadata::migrate_legacy_keys;
use oqtopus::text::write_backend_info;

#[test]
fn backend_info_accepts_crlf_and_preserves_output_bytes() {
    let metadata = format!(
        "template=backend\r\ninstall_root={ROOT}/releases\r\nenvironment_root={WORK}\r\nengine_version=v1.2.3\r\n"
    );
    assert_eq!(migrate_legacy_keys(&metadata), None);
    let env = validate_environment("backend", WORK, Some(&metadata)).ok().expect("CRLF metadata is valid");
    let info = backend_info(&Vec::new(), Ok(env)).ok().expect("info");
    let mut out = String::new();
    write_backend_info(&mut out, &info);
    assert_eq!(out.as_bytes(), metadata.as_bytes());
}

#[test]
fn backend_info_migrates_legacy_metadata_keys() {
    let metadata = format!(
        "template=backend\ninstall_root={ROOT}/releases\nenv_name=legacy\nenv_root={WORK}\nengine_version=v1.2.3\n"
    );
    let migrated = migrate_legacy_keys(&metadata).expect("legacy keys are rewritten");
    let expected = format!(
        "template=backend\ninstall_root={ROOT}/releases\nengine_version=v1.2.3\nenvironment_root={WORK}\nenvironment_name=legacy\n"
    );
    assert_eq!(migrated, expected);
    let env = validate_environment("backend", WORK, Some(&migrated)).ok().expect("migrated metadata is valid");
    let info = backend_info(&Vec::new(), Ok(env)).ok().expect("info");
    assert_eq!(info.metadata, expected);
}
