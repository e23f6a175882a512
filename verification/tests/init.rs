use oqtopus::init::{
    data_home, download_failed, init_layout, init_plan, is_valid_env_name, missing_template, timestamp_of,
    InitOutput, InitPlan, InitRequest,
};
use oqtopus::text::write_init;

fn strings(words: &[&str]) -> Vec<String> {
    words.iter().map(|w| w.to_string()).collect()
}

fn request(words: &[&str]) -> InitRequest {
    match init_plan(&strings(words)) {
        Ok(InitPlan::Create(request)) => request,
        _ => panic!("no environment requested by {words:?}"),
    }
}

fn usage_code(words: &[&str]) -> Option<i32> {
    match init_plan(&strings(words)) {
        Ok(InitPlan::Done(outcome)) if matches!(outcome.output, InitOutput::Usage) => Some(outcome.exit_code),
        _ => None,
    }
}

const INVALID_NAME_TAIL: &str =
    ". Use lowercase letters, digits, '.', '_', or '-', and start with a lowercase letter or digit.";

#[test]
fn init_rejects_invalid_requests_without_side_effects() {
    assert_eq!(
        init_plan(&strings(&["Bad_Name", "--template", "backend"])).err(),
        Some(format!("invalid env_name: Bad_Name{INVALID_NAME_TAIL}"))
    );
    assert_eq!(
        init_plan(&strings(&["demo", "--template", "nonexistent"])).err().as_deref(),
        Some("unknown template: nonexistent. Expected one of backend, cloud-local, manager.")
    );
}

#[test]
fn init_validates_env_name_boundaries() {
    for name in ["-lead", ".lead", "_lead", "UPPER", "a b", "a/b"] {
        assert!(!is_valid_env_name(name), "{name}");
        assert_eq!(
            init_plan(&strings(&[name, "--template", "nonexistent"])).err(),
            Some(format!("invalid env_name: {name}{INVALID_NAME_TAIL}"))
        );
    }
    for name in ["0", "a.b-c_d"] {
        assert!(is_valid_env_name(name), "{name}");
        assert_eq!(
            init_plan(&strings(&[name, "--template", "nonexistent"])).err().as_deref(),
            Some("unknown template: nonexistent. Expected one of backend, cloud-local, manager.")
        );
    }
    assert!(!is_valid_env_name(""));
    assert!(is_valid_env_name("my-manager"));
    assert!(is_valid_env_name("oqtopus_manager_local"));
    assert!(is_valid_env_name("manager1"));
}

#[test]
fn init_branch_flag_downloads_the_template_from_that_branch() {
    let branch = request(&["demo", "--template", "backend", "--branch", "feature/x"]);
    assert_eq!(branch.branch, "feature/x");
    assert_eq!(branch.archive_url, "https://github.com/oqtopus-team/oqtopus-cli/archive/refs/heads/feature/x.tar.gz");
    let main = request(&["demo", "--template", "backend"]);
    assert_eq!(main.branch, "main");
    assert_eq!(main.archive_url, "https://github.com/oqtopus-team/oqtopus-cli/archive/refs/heads/main.tar.gz");
    assert_eq!(main.template_dir, "templates/backend");
}

#[test]
fn init_backend_creates_rendered_environment() {
    let request = request(&["demo", "--template", "backend"]);
    let layout = init_layout(&request, "/t/work", "/t/xdg-data", "2031-12-13T14:15:16Z", false).ok().unwrap();
    assert_eq!(layout.root, "/t/work/demo");
    assert_eq!(layout.install_root, "/t/xdg-data/oqtopus/backend/releases");
    assert_eq!(
        layout.metadata,
        "template=backend\ninstall_root=/t/xdg-data/oqtopus/backend/releases\nenvironment_name=demo\nenvironment_root=/t/work/demo\ncreated_at=2031-12-13T14:15:16Z\n"
    );
    assert_eq!(layout.directories, strings(&["/t/work/demo/logs", "/t/work/demo/pids"]));
    assert_eq!(layout.outcome.exit_code, 0);
    let mut out = String::new();
    write_init(&mut out, &layout.outcome);
    assert_eq!(out, "Created backend environment: /t/work/demo\n");
}

#[test]
fn init_manager_creates_environment() {
    let request = request(&["demo", "--template", "manager"]);
    assert_eq!(request.template_dir, "templates/manager");
    let layout = init_layout(&request, "/t/work/", "/t/xdg-data", "2031-12-13T14:15:16Z", false).ok().unwrap();
    assert_eq!(
        layout.metadata,
        "template=manager\ninstall_root=/t/xdg-data/oqtopus/manager/releases\nenvironment_name=demo\nenvironment_root=/t/work/demo\ncreated_at=2031-12-13T14:15:16Z\n"
    );
    let mut out = String::new();
    write_init(&mut out, &layout.outcome);
    assert_eq!(out, "Created manager environment: /t/work/demo\n");
}

#[test]
fn init_refuses_an_existing_directory() {
    let request = request(&["demo", "--template", "cloud-local"]);
    assert_eq!(
        init_layout(&request, "/t/work", "/t/xdg-data", "now", true).err().as_deref(),
        Some("/t/work/demo already exists.")
    );
}

#[test]
fn init_shows_usage_for_help_and_malformed_invocations() {
    assert_eq!(usage_code(&["help"]), Some(0));
    assert_eq!(usage_code(&["--help"]), Some(0));
    for words in [
        &[][..],
        &["demo"][..],
        &["demo", "--template"][..],
        &["demo", "--template", "backend", "extra"][..],
        &["demo", "--template", "backend", "--branch"][..],
        &["demo", "--branch", "x", "--template", "backend"][..],
        &["demo", "--template", "backend", "--branch", ""][..],
    ] {
        assert_eq!(usage_code(words), Some(1), "{words:?}");
    }
}

#[test]
fn init_locates_the_data_directory_and_the_time() {
    assert_eq!(data_home(Some("/xdg"), Some("/home/u")).as_deref(), Ok("/xdg"));
    assert_eq!(data_home(Some(""), Some("/home/u")).as_deref(), Ok("/home/u/.local/share"));
    assert_eq!(data_home(None, Some("/home/u/")).as_deref(), Ok("/home/u/.local/share"));
    assert!(data_home(None, None).is_err());
    assert_eq!(timestamp_of("2031-12-13T14:15:16Z\n").as_deref(), Ok("2031-12-13T14:15:16Z"));
    assert_eq!(timestamp_of("2031-12-13T14:15:16Z").as_deref(), Ok("2031-12-13T14:15:16Z"));
    assert_eq!(timestamp_of("\nlater").err().as_deref(), Some("failed to read the current time."));
    let request = request(&["demo", "--template", "manager", "--branch", "dev"]);
    assert_eq!(
        download_failed(&request),
        "failed to download the manager template from https://github.com/oqtopus-team/oqtopus-cli/archive/refs/heads/dev.tar.gz."
    );
    assert_eq!(missing_template(&request), "the manager template was not found in the downloaded archive.");
}
