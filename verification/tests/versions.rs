use oqtopus::text::write_version;
use oqtopus::version::VersionInfo;
use oqtopus::versions::{advertised_tags, latest_stable, parse_stable_version};

fn advertisement(tags: &[&str]) -> String {
    let mut text = String::from("001e# service=git-upload-pack\n0000");
    for (i, tag) in tags.iter().enumerate() {
        let line = format!("{:040x} refs/tags/{tag}", i + 1);
        text.push_str(&format!("{:04x}{line}\n", line.len() + 5));
    }
    text.push_str("0000");
    text
}

#[test]
fn version_resolves_latest_when_cli_version_is_empty() {
    let refs = advertisement(&["v1.0.9", "v1.0.10", "v1.0.99"]);
    let tags = advertised_tags(&refs);
    assert_eq!(tags, vec!["v1.0.9".to_owned(), "v1.0.10".to_owned(), "v1.0.99".to_owned()]);
    let latest = latest_stable(&tags).expect("a stable release");
    assert_eq!(latest, "v1.0.99");
    let mut out = String::new();
    write_version(&mut out, &VersionInfo { version: latest });
    assert_eq!(out, "oqtopus v1.0.99\n");
}

#[test]
fn latest_stable_ignores_prereleases_and_peeled_tags() {
    let refs = format!(
        "{} refs/tags/v2.0.0-rc1\n{} refs/tags/v1.2.0^{{}}\n{} refs/tags/v1.2.0\n{} refs/heads/main\n{} refs/tags/v1.10.0\n",
        "a".repeat(40), "b".repeat(40), "c".repeat(40), "d".repeat(40), "e".repeat(40)
    );
    let tags = advertised_tags(&refs);
    assert_eq!(tags, vec!["v2.0.0-rc1".to_owned(), "v1.2.0".to_owned(), "v1.10.0".to_owned()]);
    assert_eq!(latest_stable(&tags).as_deref(), Some("v1.10.0"));
    assert_eq!(latest_stable(&vec!["main".to_owned()]), None);
}

#[test]
fn stable_versions_are_three_numbers() {
    assert_eq!(parse_stable_version("v1.2.3"), Some((1, 2, 3)));
    assert_eq!(parse_stable_version("1.2.3"), None);
    assert_eq!(parse_stable_version("v1.2"), None);
    assert_eq!(parse_stable_version("v1.2.x"), None);
}

use oqtopus::backend::versions::backend_versions;
use oqtopus::versions::{advertised_commit, installed_versions, sorted_versions, version_listing, VersionsPlan};

fn owned(words: &[&str]) -> Vec<String> {
    words.iter().map(|w| w.to_string()).collect()
}

#[test]
fn backend_versions_filters_and_sorts_stable_semver_tags() {
    let tags = owned(&["v1.2.3", "v2.0.0-rc.1", "v10.0.0", "nightly", "v1.10.0", "v2.0.0", "v0.9.9", "release-v4.0.0"]);
    assert_eq!(sorted_versions(&tags), owned(&["v10.0.0", "v2.0.0", "v1.10.0", "v1.2.3", "v0.9.9"]));
}

#[test]
fn backend_versions_sorts_patch_releases_numerically() {
    let tags = owned(&["v1.0.9", "v1.0.10", "v1.0.99", "v1.0.10"]);
    assert_eq!(sorted_versions(&tags), owned(&["v1.0.99", "v1.0.10", "v1.0.9"]));
}

#[test]
fn backend_versions_annotates_environment_context() {
    let remote = owned(&["v1.2.3", "v2.0.0", "v1.10.0"]);
    let installed = installed_versions("engine", &owned(&["engine-v1.10.0", "engine-v0.1.0", "tranqu-v9.9.9", "engine-"]));
    assert_eq!(installed, owned(&["v1.10.0", "v0.1.0"]));
    let list = version_listing("engine", &remote, &installed, Some("v1.10.0"), false);
    let lines: Vec<(String, bool, bool, bool)> = list
        .entries
        .iter()
        .map(|e| (e.tag.clone(), e.current, e.installed, e.remote))
        .collect();
    assert_eq!(
        lines,
        vec![
            ("v2.0.0".to_owned(), false, false, true),
            ("v1.10.0".to_owned(), true, true, true),
            ("v1.2.3".to_owned(), false, false, true),
            ("v0.1.0".to_owned(), false, true, false),
        ]
    );
    let list = version_listing("engine", &remote, &Vec::new(), Some("branch:feature/x"), true);
    assert_eq!(list.entries[0].tag, "branch:feature/x");
    assert!(list.entries[0].current && list.entries[0].installed && !list.entries[0].remote);
    assert_eq!(list.entries.len(), 4);
    let mut out = String::new();
    oqtopus::text::write_versions(
        &mut out,
        &oqtopus::versions::VersionsOutcome { output: oqtopus::versions::VersionsOutput::List(list), exit_code: 0 },
    );
    assert_eq!(out, "engine:\n* branch:feature/x (installed)\n  v2.0.0\n  v1.10.0\n  v1.2.3\n");
}

#[test]
fn backend_versions_rejects_unusable_input() {
    assert_eq!(backend_versions(&owned(&["bogus"])).err().as_deref(), Some("unknown component: bogus"));
    assert!(matches!(backend_versions(&owned(&[])), Ok(VersionsPlan::Done(o)) if o.exit_code == 1));
    assert!(matches!(backend_versions(&owned(&["engine"])), Ok(VersionsPlan::List(c)) if c.name == "engine"));
}

#[test]
fn branch_commits_come_from_the_advertisement() {
    let sha = "0123456789abcdef0123456789abcdef01234567";
    let refs = format!("001e# service=git-upload-pack\n0000015c{sha} HEAD\0multi_ack\n003f{sha} refs/heads/main\n");
    assert_eq!(advertised_commit(&refs, "refs/heads/main").as_deref(), Some(sha));
    assert_eq!(advertised_commit(&refs, "HEAD").as_deref(), Some(sha));
    assert_eq!(advertised_commit(&refs, "refs/heads/other"), None);
}
