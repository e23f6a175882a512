use oqtopus::backend::lifecycle::{backend_restart, backend_start, backend_stop};
use oqtopus::backend::operations::{backend_build, backend_install, backend_uninstall, backend_update};
use oqtopus::backend::versions::backend_versions;
use oqtopus::backend::{backend_device_status, backend_info, backend_status, BackendDeviceStatus, DeviceStatusPlan};
use oqtopus::cli::{exit_status, invocation, run_unrouted, Route, Unrouted};
use oqtopus::cloud_local::lifecycle::{cloud_local_restart, cloud_local_start, cloud_local_stop};
use oqtopus::cloud_local::operations::{cloud_local_install, cloud_local_uninstall, cloud_local_update};
use oqtopus::cloud_local::versions::cloud_local_versions;
use oqtopus::completion::{completion, CompletionOutput};
use oqtopus::lifecycle::LifecyclePlan;
use oqtopus::manager::lifecycle::{manager_restart, manager_start, manager_stop};
use oqtopus::manager::operations::{manager_install, manager_uninstall, manager_update};
use oqtopus::manager::versions::manager_versions;
use oqtopus::manager::{manager_info, manager_status};
use oqtopus::operations::OperationPlan;
use oqtopus::text::{
    lifecycle_usage, operation_usage, write_backend_help, write_cloud_local_help, write_completion,
    write_help, write_manager_help, write_version, write_versions,
};
use oqtopus::init::{init_plan, InitPlan};
use oqtopus::version::VersionInfo;
use oqtopus::versions::VersionsPlan;

fn strings(words: &[&str]) -> Vec<String> {
    words.iter().map(|w| w.to_string()).collect()
}

fn no_environment<T>() -> Result<T, String> {
    Err("no .metadata found in the current directory; run this command from the root of a backend environment.".to_owned())
}

fn top_help() -> String {
    let mut out = String::new();
    write_help(&mut out);
    out
}

fn unrouted_text(args: &[&str]) -> (String, i32) {
    match run_unrouted(&strings(args)) {
        Ok(Unrouted::Help) => (top_help(), 0),
        Ok(Unrouted::DomainHelp(domain)) => {
            let mut out = String::new();
            match domain {
                oqtopus::cli::Domain::Backend => write_backend_help(&mut out),
                oqtopus::cli::Domain::CloudLocal => write_cloud_local_help(&mut out),
                oqtopus::cli::Domain::Manager => write_manager_help(&mut out),
            }
            (out, 0)
        },
        Ok(Unrouted::Completion(o)) => {
            let mut out = String::new();
            write_completion(&mut out, &o);
            (out, o.exit_code())
        },
        Err(m) => (m, 1),
    }
}

#[test]
fn completion_prints_the_shell_script_for_each_supported_shell() {
    let mut scripts = Vec::new();
    for shell in ["bash", "zsh", "fish"] {
        let outcome = completion(&strings(&[shell])).ok().expect("supported shell");
        assert_eq!(outcome.exit_code(), 0);
        match outcome.output {
            CompletionOutput::Script(script) => {
                assert!(script.contains("oqtopus"), "{shell} script does not name the command");
                scripts.push(script);
            },
            CompletionOutput::Usage => panic!("{shell} printed usage"),
        }
    }
    assert!(scripts[0] != scripts[1] && scripts[1] != scripts[2] && scripts[0] != scripts[2]);
}

#[test]
fn completion_preserves_help_and_argument_errors() {
    let help = unrouted_text(&["completion", "help"]);
    assert_eq!(help.1, 0);
    assert_eq!(unrouted_text(&["completion", "--help", "ignored"]), help);
    let none = unrouted_text(&["completion"]);
    assert_eq!(none, (help.0.clone(), 1));
    assert_eq!(unrouted_text(&["completion", "bash", "unexpected"]), (help.0.clone(), 1));
    assert_eq!(unrouted_text(&["completion", "powershell"]), ("unsupported shell: powershell".to_owned(), 1));
}

#[test]
fn completion_scripts() {
    for shell in ["bash", "zsh", "fish"] {
        let (text, code) = unrouted_text(&["completion", shell]);
        assert_eq!(code, 0);
        assert!(!text.is_empty());
    }
}

#[test]
fn help_top_level_help() {
    let help = top_help();
    assert!(help.starts_with("Usage:\n  oqtopus <command> [args]\n"));
    for args in [&[][..], &["help"][..], &["--help"]] {
        let (route, _) = invocation(&strings(args));
        assert!(route == Route::Help, "{args:?} did not route to help");
    }
}

#[test]
fn main_top_level_help() {
    for args in [&[][..], &["help"][..], &["--help"], &["help", "ignored"], &["--help", "ignored"]] {
        let (route, words) = invocation(&strings(args));
        assert!(route == Route::Help, "{args:?} did not route to help");
        assert!(words.is_empty());
    }
    assert_eq!(unrouted_text(&[""]), (top_help(), 0));
}

#[test]
fn dispatcher_without_arguments_prints_help() {
    for command in ["backend", "cloud-local", "manager"] {
        assert_eq!(unrouted_text(&[command]), unrouted_text(&[command, "help"]));
        assert_eq!(unrouted_text(&[command]).1, 0);
    }
}

#[test]
fn domain_level_help_is_stable_and_covers_every_spelling() {
    for domain in ["backend", "cloud-local", "manager"] {
        let canonical = unrouted_text(&[domain]);
        assert_eq!(canonical.1, 0);
        for action in ["help", "--help"] {
            assert_eq!(unrouted_text(&[domain, action, "ignored"]), canonical);
        }
    }
}

fn init_help(words: &[&str]) -> (String, i32) {
    match init_plan(&strings(words)) {
        Ok(InitPlan::Done(outcome)) => {
            let mut out = String::new();
            oqtopus::text::write_init(&mut out, &outcome);
            (out, outcome.exit_code)
        }
        _ => panic!("init {words:?} did not show usage"),
    }
}

fn lifecycle_help(plan: Result<LifecyclePlan, String>) -> (String, i32) {
    match plan {
        Ok(LifecyclePlan::Done(o)) => match o.output {
            oqtopus::lifecycle::LifecycleOutput::Usage(kind) => (lifecycle_usage(kind).to_owned(), o.exit_code),
            _ => panic!("no usage"),
        },
        _ => panic!("help did not show usage"),
    }
}

fn operation_help(plan: Result<OperationPlan, String>) -> (String, i32) {
    match plan {
        Ok(OperationPlan::Done(o)) => (operation_usage(o.usage.expect("usage")).to_owned(), o.exit_code),
        _ => panic!("help did not show usage"),
    }
}

fn versions_help(plan: VersionsPlan) -> (String, i32) {
    match plan {
        VersionsPlan::Done(o) => {
            let mut out = String::new();
            let code = o.exit_code;
            write_versions(&mut out, &o);
            (out, code)
        },
        _ => panic!("help did not show usage"),
    }
}

#[test]
fn command_help() {
    for flag in ["help", "--help"] {
        let a = strings(&[flag]);
        let expected_start = "Usage:\n  oqtopus ";
        let texts = vec![
            init_help(&[flag]),
            operation_help(backend_install(&a, no_environment())),
            operation_help(backend_build(&a, no_environment(), false, false)),
            operation_help(backend_uninstall(&a, no_environment())),
            operation_help(backend_update(&a, no_environment())),
            lifecycle_help(backend_start(&a, no_environment())),
            lifecycle_help(backend_stop(&a, no_environment())),
            lifecycle_help(backend_restart(&a, no_environment())),
            operation_help(manager_install(&a, no_environment())),
            operation_help(manager_uninstall(&a, no_environment())),
            operation_help(manager_update(&a, no_environment())),
            lifecycle_help(manager_start(&a, no_environment())),
            lifecycle_help(manager_stop(&a, no_environment())),
            lifecycle_help(manager_restart(&a, no_environment())),
            operation_help(cloud_local_install(&a, no_environment())),
            operation_help(cloud_local_uninstall(&a, no_environment())),
            operation_help(cloud_local_update(&a, no_environment())),
            lifecycle_help(cloud_local_start(&a, no_environment())),
            lifecycle_help(cloud_local_stop(&a, no_environment())),
            lifecycle_help(cloud_local_restart(&a, no_environment())),
            versions_help(backend_versions(&a).ok().expect("usage")),
            versions_help(manager_versions(&a)),
            versions_help(cloud_local_versions(&a).ok().expect("usage")),
        ];
        for (text, code) in texts {
            assert_eq!(code, 0);
            assert!(text.starts_with(expected_start), "{text}");
        }
        assert!(matches!(
            backend_device_status(&a, no_environment(), false),
            Ok(DeviceStatusPlan::Done(BackendDeviceStatus::Help))
        ));
    }
    assert_eq!(
        lifecycle_help(backend_start(&strings(&["help"]), no_environment())),
        lifecycle_help(backend_start(&strings(&["--help"]), no_environment()))
    );
}

#[test]
fn version() {
    for argument in ["version", "--version"] {
        let (route, _) = invocation(&strings(&[argument]));
        assert!(route == Route::Version);
    }
    let mut out = String::new();
    write_version(&mut out, &VersionInfo { version: "1.2.3".to_owned() });
    assert_eq!(out, "oqtopus 1.2.3\n");
}

#[test]
fn representative_errors() {
    for (args, message) in [
        (vec!["unknown"], "unknown command: unknown"),
        (vec!["backend", "unknown"], "unknown backend command: unknown"),
        (vec!["cloud-local", "unknown"], "unknown cloud-local command: unknown"),
        (vec!["manager", "unknown"], "unknown manager command: unknown"),
        (vec!["completion", "powershell"], "unsupported shell: powershell"),
    ] {
        assert_eq!(unrouted_text(&args), (message.to_owned(), 1), "{args:?}");
    }
    assert_eq!(
        backend_status(&Vec::new(), no_environment(), &vec![None; 7]).err().as_deref(),
        Some("no .metadata found in the current directory; run this command from the root of a backend environment.")
    );
    assert_eq!(
        manager_status(&strings(&["extra"]), no_environment(), None).err().as_deref(),
        Some("oqtopus manager status does not accept arguments.")
    );
    assert_eq!(
        manager_info(&strings(&["extra"]), no_environment()).err().as_deref(),
        Some("oqtopus manager info does not accept arguments.")
    );
    assert!(matches!(manager_versions(&strings(&["extra"])), VersionsPlan::Done(o) if o.exit_code == 1));
    assert!(matches!(backend_versions(&strings(&[])), Ok(VersionsPlan::Done(o)) if o.exit_code == 1));
    assert!(matches!(backend_versions(&strings(&["engine", "extra"])), Ok(VersionsPlan::Done(o)) if o.exit_code == 1));
    assert_eq!(unrouted_text(&["completion"]).1, 1);
    assert_eq!(unrouted_text(&["completion", "bash", "zsh"]).1, 1);
    assert_eq!(
        backend_status(&strings(&["extra"]), no_environment(), &vec![None; 7]).err().as_deref(),
        Some("oqtopus backend status does not accept arguments.")
    );
    assert_eq!(
        backend_info(&strings(&["extra"]), no_environment()).err().as_deref(),
        Some("oqtopus backend info does not accept arguments.")
    );
    for words in [
        &[][..],
        &["demo"][..],
        &["demo", "--template"][..],
        &["demo", "--template", "backend", "extra"][..],
        &["demo", "--template", "backend", "--branch"][..],
    ] {
        let (text, code) = init_help(words);
        assert_eq!(code, 1, "init {words:?}");
        assert!(text.starts_with("Usage:\n  oqtopus init "), "{text}");
    }
    assert_eq!(exit_status(&Err("any".to_owned())), 1);
}
