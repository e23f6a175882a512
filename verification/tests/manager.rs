use oqtopus::environment::{validate_environment, Environment};
use oqtopus::lifecycle::LifecyclePlan;
use oqtopus::manager::lifecycle::{manager_command, manager_restart, manager_start};
use oqtopus::manager::versions::manager_versions;
use oqtopus::manager::{manager_info, manager_pid_file, manager_status};
use oqtopus::versions::VersionsPlan;

fn strings(words: &[&str]) -> Vec<String> {
    words.iter().map(|w| w.to_string()).collect()
}

fn environment(extra: &str) -> Environment {
    let metadata = format!("template=manager\nenvironment_root=/env\ninstall_root=/releases\n{extra}");
    validate_environment("manager", "/env", Some(&metadata)).ok().expect("valid environment")
}

#[test]
fn manager_info_reports_metadata_verbatim() {
    let env = environment("manager_version=v1\n");
    let expected = env.metadata.clone();
    let info = manager_info(&Vec::new(), Ok(env)).ok().expect("info");
    assert_eq!(info.metadata, expected);
    assert_eq!(
        manager_info(&strings(&["x"]), Ok(environment(""))).err().as_deref(),
        Some("oqtopus manager info does not accept arguments.")
    );
}

#[test]
fn manager_status_reports_stopped_without_pid_file() {
    let env = environment("");
    assert_eq!(manager_pid_file(&env), "/env/pids/manager.pid");
    let status = manager_status(&Vec::new(), Ok(env), None).ok().expect("status");
    assert_eq!(status.service.name, "manager");
    assert_eq!(status.service.pid, None);
}

#[test]
fn manager_lifecycle_plans() {
    match manager_start(&strings(&["--foreground", "x"]), Ok(environment(""))) {
        Ok(LifecyclePlan::Done(o)) => assert_eq!(o.exit_code, 1),
        _ => panic!("extra argument did not show usage"),
    }
    match manager_restart(&Vec::new(), Ok(environment(""))) {
        Ok(LifecyclePlan::Run(run)) => assert_eq!(run.steps.len(), 2),
        _ => panic!("restart was not planned"),
    }
    let command = manager_command(&environment("manager_version=v1.0.0\n"), true).ok().expect("command");
    assert_eq!(command.args, strings(&[
        "run", "--project", "/releases/manager-v1.0.0", "python", "-m", "oqtopus_manager.main",
        "-c", "/env/config/config.yaml", "-l", "/env/config/logging.yaml",
    ]));
    assert_eq!(
        manager_command(&environment(""), true).err().as_deref(),
        Some("cannot start manager. Missing manager_version in .metadata.")
    );
}

#[test]
fn manager_versions_lists_the_manager() {
    assert!(matches!(manager_versions(&Vec::new()), VersionsPlan::List(c) if c.name == "manager"));
    assert!(matches!(manager_versions(&strings(&["x"])), VersionsPlan::Done(_)));
}

use oqtopus::versions::{advertised_tags, version_listing};

#[test]
fn manager_environment_validation_errors() {
    assert_eq!(
        validate_environment("manager", "/env", None).err().as_deref(),
        Some("no .metadata found in the current directory; run this command from the root of a manager environment.")
    );
    let backend = "template=backend\nenvironment_root=/env\ninstall_root=/releases\n";
    assert_eq!(
        validate_environment("manager", "/env", Some(backend)).err().as_deref(),
        Some("this command requires a manager environment, but .metadata declares template=backend.")
    );
}

#[test]
fn manager_versions_lists_remote_tags_outside_an_environment() {
    let sha = "f".repeat(40);
    let refs = format!("{sha} refs/tags/v0.1.0\n{sha} refs/tags/v0.2.0\n{sha} refs/tags/v0.3.0-rc1\n");
    let list = version_listing("manager", &advertised_tags(&refs), &Vec::new(), None, false);
    let mut out = String::new();
    oqtopus::text::write_versions(
        &mut out,
        &oqtopus::versions::VersionsOutcome { output: oqtopus::versions::VersionsOutput::List(list), exit_code: 0 },
    );
    assert_eq!(out, "manager:\n  v0.2.0\n  v0.1.0\n");
}

#[test]
fn manager_versions_annotates_environment_context() {
    let remote = strings(&["v0.1.0", "v0.2.0"]);
    let list = version_listing("manager", &remote, &strings(&["v0.2.0"]), Some("branch:develop"), true);
    let mut out = String::new();
    oqtopus::text::write_versions(
        &mut out,
        &oqtopus::versions::VersionsOutcome { output: oqtopus::versions::VersionsOutput::List(list), exit_code: 0 },
    );
    assert_eq!(out, "manager:\n* branch:develop (installed)\n  v0.2.0 (installed)\n  v0.1.0\n");
}
