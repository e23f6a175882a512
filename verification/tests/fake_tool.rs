use oqtopus::fake_tool::{curl_output_path, fixture_dir, json_string, log_line, option_value, read_status};

#[test]
fn json_string_escapes_control_characters() {
    assert_eq!(json_string("a\n\"\\\u{0001}"), "\"a\\n\\\"\\\\\\u0001\"");
}

#[test]
fn option_value_accepts_separate_and_joined_forms() {
    let separate = vec!["--project".to_owned(), "/tmp/project".to_owned()];
    let joined = vec!["--project=/tmp/project".to_owned()];
    assert_eq!(option_value(&separate, "--project"), Some("/tmp/project"));
    assert_eq!(option_value(&joined, "--project"), Some("/tmp/project"));
}

#[test]
fn json_string_escapes_every_named_control_character() {
    assert_eq!(json_string("\u{08}\u{0c}\r\t\u{1f} é"), "\"\\b\\f\\r\\t\\u001f é\"");
    assert_eq!(json_string(""), "\"\"");
}

#[test]
fn option_value_prefers_the_separate_form_and_ignores_a_trailing_option() {
    let args: Vec<String> = ["--project=/joined", "--project", "/separate"]
        .iter()
        .map(|s| s.to_string())
        .collect();
    assert_eq!(option_value(&args, "--project"), Some("/separate"));
    let trailing = vec!["--project".to_owned()];
    assert_eq!(option_value(&trailing, "--project"), None);
}

#[test]
fn curl_output_path_takes_the_short_option_first() {
    let args: Vec<String> = ["--output", "long", "-o", "short"].iter().map(|s| s.to_string()).collect();
    assert_eq!(curl_output_path(&args).as_deref(), Some("short"));
    let long: Vec<String> = ["-sS", "--output=file.tar.gz", "url"].iter().map(|s| s.to_string()).collect();
    assert_eq!(curl_output_path(&long).as_deref(), Some("file.tar.gz"));
    let none: Vec<String> = vec!["-sS".to_owned()];
    assert_eq!(curl_output_path(&none), None);
}

#[test]
fn fixture_dir_needs_a_root_and_a_tool_directory() {
    assert_eq!(fixture_dir(Some("/fixtures"), "curl", true).as_deref(), Some("/fixtures/curl"));
    assert_eq!(fixture_dir(Some("/fixtures"), "curl", false), None);
    assert_eq!(fixture_dir(None, "curl", true), None);
}

#[test]
fn read_status_parses_trimmed_numbers_in_range() {
    assert_eq!(read_status(None), Ok(0));
    assert_eq!(read_status(Some(b" 7\n".to_vec())), Ok(7));
    assert_eq!(read_status(Some(b"255".to_vec())), Ok(255));
    assert_eq!(
        read_status(Some(b"256".to_vec())),
        Err("status must be between 0 and 255, got 256".to_owned())
    );
    assert_eq!(
        read_status(Some(b"-3".to_vec())),
        Err("status must be between 0 and 255, got -3".to_owned())
    );
    let invalid = read_status(Some(b"x\n".to_vec())).unwrap_err();
    assert!(invalid.starts_with("invalid status \"x\\n\": "), "{invalid}");
    let undecodable = read_status(Some(vec![0xff])).unwrap_err();
    assert!(undecodable.starts_with("status is not UTF-8: "), "{undecodable}");
}

#[test]
fn log_line_records_the_call_as_one_json_line() {
    let args = vec!["sync".to_owned(), "--project".to_owned(), "/p q".to_owned()];
    let values = vec![Some("/home/u".to_owned()), None, None, Some("1.0".to_owned())];
    assert_eq!(
        log_line("uv", &args, "/work", 3, &values),
        "{\"tool\":\"uv\",\"ordinal\":3,\"argv\":[\"uv\",\"sync\",\"--project\",\"/p q\"],\"cwd\":\"/work\",\"env\":{\"HOME\":\"/home/u\",\"XDG_CONFIG_HOME\":null,\"XDG_DATA_HOME\":null,\"OQTOPUS_CLI_VERSION\":\"1.0\"}}\n"
    );
}

use oqtopus::fake_tool::{confined_target, symlink_traversal};

#[test]
fn confined_target_rejects_paths_outside_the_sandbox() {
    let sandbox = "/tmp/oqtopus-characterization";
    let cwd = "/tmp/oqtopus-characterization/work";

    assert_eq!(
        confined_target(cwd, "nested/output", sandbox).result.unwrap(),
        "/tmp/oqtopus-characterization/work/nested/output"
    );
    assert!(confined_target(cwd, "../../outside", sandbox).result.is_err());
    assert!(confined_target(cwd, "/tmp/outside", sandbox).result.is_err());
}

#[test]
fn confined_target_reports_escapes_and_the_paths_to_check() {
    let sandbox = "/tmp/s";
    let target = confined_target("/tmp/s/work", "./a/../b", sandbox);
    assert_eq!(target.result.as_deref(), Ok("/tmp/s/work/b"));
    assert_eq!(
        target.checks,
        vec!["/", "/tmp", "/tmp/s", "/tmp/s/work", "/tmp/s/work/a", "/tmp/s/work", "/tmp/s/work/b"]
            .into_iter()
            .map(String::from)
            .collect::<Vec<_>>()
    );
    assert_eq!(
        confined_target("/", "../x", sandbox).result,
        Err("target escapes filesystem root: ../x".to_owned())
    );
    assert_eq!(
        confined_target("/tmp/s", "/tmp/sx/out", sandbox).result,
        Err("target is outside test sandbox /tmp/s: /tmp/sx/out".to_owned())
    );
    assert_eq!(confined_target("/tmp/s", "//tmp//s/./out/", sandbox).result.as_deref(), Ok("/tmp/s/out"));
    assert_eq!(symlink_traversal("/tmp/s/link", "link/out"), "target traverses the symlink /tmp/s/link: link/out");
}

use oqtopus::fake_tool::{default_effect, invoked_tool, shows_output, DefaultEffect};

#[test]
fn invoked_tool_follows_the_invocation_name_then_the_configuration() {
    assert_eq!(invoked_tool(Some("/fake/bin/curl"), None).as_deref(), Ok("curl"));
    assert_eq!(invoked_tool(Some("uv.exe.exe"), Some("git")).as_deref(), Ok("uv"));
    assert_eq!(invoked_tool(Some("/fake/oqtopus-test-fake"), Some("git")).as_deref(), Ok("git"));
    assert_eq!(
        invoked_tool(Some("/fake/other"), None),
        Err("unsupported invocation name \"other\"; expected one of curl, date, docker, git, uv".to_owned())
    );
    assert_eq!(
        invoked_tool(None, Some("make")),
        Err("unsupported invocation name \"\"; expected one of curl, date, docker, git, uv".to_owned())
    );
}

#[test]
fn default_effects_follow_the_tool_and_its_arguments() {
    let curl: Vec<String> = ["-fsSL", "-o", "out.tar.gz", "url"].iter().map(|s| s.to_string()).collect();
    assert!(matches!(default_effect("curl", &curl), Some(DefaultEffect::WriteOutput(ref p)) if p == "out.tar.gz"));
    assert!(!shows_output("curl", &curl));
    assert!(shows_output("git", &curl));
    let clone: Vec<String> = ["clone", "repo", "target"].iter().map(|s| s.to_string()).collect();
    assert!(matches!(default_effect("git", &clone), Some(DefaultEffect::CreateDir(ref t)) if t == "target"));
    let sync: Vec<String> = ["sync", "--frozen", "--project=/p"].iter().map(|s| s.to_string()).collect();
    assert!(matches!(default_effect("uv", &sync), Some(DefaultEffect::CreateVenv(ref p)) if p == "/p"));
    assert!(default_effect("docker", &sync).is_none());
    assert!(default_effect("uv", &clone).is_none());
}

use oqtopus::fake_tool::{fake_failure_status, fake_plan};

fn words(items: &[&str]) -> Vec<String> {
    items.iter().map(|item| item.to_string()).collect()
}

#[test]
fn fake_plan_refuses_a_call_without_a_fixture() {
    let refused = fake_plan("git", &words(&["clone", "x"]), 3, None, Ok(0));
    assert_eq!(
        refused.err().as_deref(),
        Some("no fixture configured for git call 3; refusing to succeed implicitly")
    );
    let refused = fake_plan("uv", &[], 12, None, Err("ignored".to_string()));
    assert_eq!(
        refused.err().as_deref(),
        Some("no fixture configured for uv call 12; refusing to succeed implicitly")
    );
}

#[test]
fn fake_plan_passes_on_a_bad_status_file() {
    let refused = fake_plan("date", &[], 1, Some("/f/date".to_string()), Err("status must be between 0 and 255, got 300".to_string()));
    assert_eq!(refused.err().as_deref(), Some("status must be between 0 and 255, got 300"));
}

#[test]
fn fake_plan_applies_effects_only_on_success() {
    let plan = fake_plan("git", &words(&["clone", "u", "t"]), 1, Some("/f/git".to_string()), Ok(0)).ok().unwrap();
    assert_eq!((plan.exit_status, plan.apply_effects, plan.show_stdout), (0, true, true));
    let plan = fake_plan("git", &words(&["clone", "u", "t"]), 2, Some("/f/git".to_string()), Ok(7)).ok().unwrap();
    assert_eq!((plan.exit_status, plan.apply_effects, plan.show_stdout), (7, false, true));
}

#[test]
fn fake_plan_hides_the_output_curl_writes_to_a_file() {
    let plan = fake_plan("curl", &words(&["-o", "out.tgz", "https://x"]), 1, Some("/f/curl".to_string()), Ok(0)).ok().unwrap();
    assert!(!plan.show_stdout);
    let plan = fake_plan("curl", &words(&["--output=out.tgz"]), 1, Some("/f/curl".to_string()), Ok(22)).ok().unwrap();
    assert!(!plan.show_stdout);
    assert!(!plan.apply_effects);
    let plan = fake_plan("curl", &words(&["https://x"]), 1, Some("/f/curl".to_string()), Ok(0)).ok().unwrap();
    assert!(plan.show_stdout);
    let plan = fake_plan("git", &words(&["-o", "x"]), 1, Some("/f/git".to_string()), Ok(0)).ok().unwrap();
    assert!(plan.show_stdout);
}

#[test]
fn fake_failure_status_is_125() {
    assert_eq!(fake_failure_status(), 125);
}

#[test]
fn read_status_accepts_signs_and_leading_zeros_only_in_decimal_form() {
    assert_eq!(read_status(Some(b"+12".to_vec())), Ok(12));
    assert_eq!(read_status(Some(b"007\r\n".to_vec())), Ok(7));
    assert_eq!(read_status(Some(b"-0".to_vec())), Ok(0));
    assert_eq!(read_status(Some("\u{e9}\n".as_bytes().to_vec())).unwrap_err(), "invalid status \"\u{e9}\\n\": invalid digit found in string");
    for bad in ["", "+", "-", "1 2", "+-1", "0x10", "99999999999"] {
        let error = read_status(Some(bad.as_bytes().to_vec())).unwrap_err();
        assert!(error.starts_with("invalid status "), "{bad:?}: {error}");
    }
    assert_eq!(
        read_status(Some(b"-2147483648".to_vec())),
        Err("status must be between 0 and 255, got -2147483648".to_owned())
    );
}

use oqtopus::fake_tool::ordinal_after;
use oqtopus::service::recorded_pid;

#[test]
fn ordinal_after_counts_one_more_call() {
    assert_eq!(ordinal_after(None, "/s/git.count"), Ok(1));
    assert_eq!(ordinal_after(Some("4\n"), "/s/git.count"), Ok(5));
    assert_eq!(ordinal_after(Some(" +9 "), "/s/git.count"), Ok(10));
    let error = ordinal_after(Some("four\n"), "/s/git.count").unwrap_err();
    assert!(error.starts_with("parse /s/git.count: "), "{error}");
    assert_eq!(
        ordinal_after(Some("18446744073709551615"), "/s/git.count"),
        Err("count in /s/git.count is too large".to_owned())
    );
}

#[test]
fn recorded_pid_reads_a_trimmed_number() {
    assert_eq!(recorded_pid("1234\n"), Some(1234));
    assert_eq!(recorded_pid("  +77 "), Some(77));
    assert_eq!(recorded_pid("4294967295"), Some(4294967295));
    assert_eq!(recorded_pid("4294967296"), None);
    assert_eq!(recorded_pid("-1"), None);
    assert_eq!(recorded_pid(""), None);
    assert_eq!(recorded_pid("12a"), None);
}
