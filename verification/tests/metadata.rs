use oqtopus::config::load_config_value;
use oqtopus::metadata::{
    appended_line_ending, metadata_get, metadata_set, metadata_unset, migrate_key,
    migrate_legacy_keys,
};

#[test]
fn binding_updates_preserve_utf8_unknown_lines_and_line_endings() {
    let contents = "template=backend\r\nunknown=東京\r\nengine_version=old\r\n";
    let updated = metadata_set(contents, "engine_version", "v1.2.3");
    assert_eq!(
        updated,
        "template=backend\r\nunknown=東京\r\nengine_version=v1.2.3\r\n"
    );
    assert_eq!(
        metadata_unset(&updated, "engine_version"),
        "template=backend\r\nunknown=東京\r\n"
    );
}

#[test]
fn setting_a_binding_in_empty_metadata_does_not_add_a_blank_line() {
    assert_eq!(
        metadata_set("", "engine_version", "v1.2.3"),
        "engine_version=v1.2.3\n"
    );
}

#[test]
fn appending_a_binding_separates_an_unterminated_unknown_line() {
    assert_eq!(
        metadata_set("unknown=café", "engine_version", "v1.2.3"),
        "unknown=café\nengine_version=v1.2.3\n"
    );
}

#[test]
fn appending_a_binding_follows_crlf_line_endings() {
    assert_eq!(
        metadata_set("template=backend\r\n", "engine_version", "v1.2.3"),
        "template=backend\r\nengine_version=v1.2.3\r\n"
    );
    assert_eq!(
        metadata_set("template=backend\r\nunknown=1", "engine_version", "v1.2.3"),
        "template=backend\r\nunknown=1\r\nengine_version=v1.2.3\r\n"
    );
}

#[test]
fn config_values_match_the_legacy_env_reader() {
    let contents =
        "# ignored\nEMPTY=\nDOUBLE=\"image:1\"\nSINGLE='image:2'\nSEPARATORS=a=b=c\n   INDENTED=no\n";
    assert_eq!(load_config_value(contents, "EMPTY").as_deref(), Some(""));
    assert_eq!(load_config_value(contents, "DOUBLE").as_deref(), Some("image:1"));
    assert_eq!(load_config_value(contents, "SINGLE").as_deref(), Some("image:2"));
    assert_eq!(load_config_value(contents, "SEPARATORS").as_deref(), Some("a=b=c"));
    assert_eq!(load_config_value(contents, "INDENTED"), None);
}

#[test]
fn config_values_skip_comments_and_use_the_first_assignment() {
    let contents = "#KEY=commented\nKEY=first\r\nKEY=second\n";
    assert_eq!(load_config_value(contents, "KEY").as_deref(), Some("first"));
    assert_eq!(load_config_value(contents, "MISSING"), None);
    assert_eq!(load_config_value("", "KEY"), None);
}

#[test]
fn metadata_get_uses_the_first_match_and_keeps_inner_separators() {
    let contents = "engine_version=v1.2.3\nengine_version=v2.0.0\nother=branch:a=b\n";
    assert_eq!(metadata_get(contents, "engine_version").as_deref(), Some("v1.2.3"));
    assert_eq!(metadata_get(contents, "other").as_deref(), Some("branch:a=b"));
    assert_eq!(metadata_get(contents, "missing"), None);
    assert_eq!(metadata_get("template\n", "template"), None);
}

#[test]
fn reading_a_binding_after_setting_it_gives_the_new_value() {
    let contents = "template=backend\nengine_version=old\n";
    let updated = metadata_set(contents, "engine_version", "v9.9.9");
    assert_eq!(metadata_get(&updated, "engine_version").as_deref(), Some("v9.9.9"));
    assert_eq!(metadata_get(&updated, "template").as_deref(), Some("backend"));
    let removed = metadata_unset(&updated, "engine_version");
    assert_eq!(metadata_get(&removed, "engine_version"), None);
    assert_eq!(metadata_get(&removed, "template").as_deref(), Some("backend"));
}

#[test]
fn unsetting_removes_every_binding_of_the_key() {
    assert_eq!(
        metadata_unset("a=1\nb=2\na=3\n", "a"),
        "b=2\n"
    );
    assert_eq!(metadata_unset("b=2", "a"), "b=2");
}

#[test]
fn appended_bindings_follow_the_last_terminated_line() {
    assert_eq!(appended_line_ending(""), "\n");
    assert_eq!(appended_line_ending("a=1\r\n"), "\r\n");
    assert_eq!(appended_line_ending("a=1\nb=2\r\n"), "\r\n");
    assert_eq!(appended_line_ending("a=1\r\nb=2\n"), "\n");
}

#[test]
fn legacy_metadata_keys_are_migrated_in_place() {
    let contents = "template=backend\nenv_root=/work\nenv_name=demo\ninstall_root=/releases\n";
    let migrated = migrate_legacy_keys(contents).expect("legacy keys are migrated");
    assert_eq!(
        migrated,
        "template=backend\ninstall_root=/releases\nenvironment_root=/work\nenvironment_name=demo\n"
    );
    assert_eq!(migrate_legacy_keys(&migrated), None);
}

#[test]
fn migrating_a_missing_key_leaves_metadata_unchanged() {
    let contents = "template=backend\n".to_owned();
    assert_eq!(migrate_key(contents.clone(), "env_root", "environment_root"), contents);
}

use oqtopus::config::config_assignments;

#[test]
fn config_assignments_list_every_setting_in_order() {
    let pairs = config_assignments("# c\nA=1\n  \nB='two'\nC\n D=x\n");
    assert_eq!(
        pairs,
        vec![
            ("A".to_owned(), "1".to_owned()),
            ("B".to_owned(), "two".to_owned()),
            (" D".to_owned(), "x".to_owned()),
        ]
    );
}

#[test]
fn unset_after_set_equals_unset_alone() {
    for contents in ["", "a=1\n", "a=1\r\nk=old\nb=2\n", "k=x\nk=y\r\n", "b=2\nk\n"] {
        for value in ["", "v", "two words", "ends\r"] {
            assert_eq!(
                metadata_unset(&metadata_set(contents, "k", value), "k"),
                metadata_unset(contents, "k"),
                "contents {contents:?}, value {value:?}"
            );
        }
    }
}
