use oqtopus::cli::{exit_status, invocation, route, run_unrouted, Domain, Route, Unrouted};
use oqtopus::text::{write_error, write_help};

fn strings(words: &[&str]) -> Vec<String> {
    words.iter().map(|w| w.to_string()).collect()
}

fn unknown_message(args: &[&str]) -> String {
    match args {
        [command] => format!("command: {command}"),
        [domain, action] => format!("{domain} command: {action}"),
        _ => unreachable!("test cases only use one or two words"),
    }
}

#[test]
fn unknown_commands_are_rejected_at_every_level() {
    for args in [
        vec!["not-a-real-command"],
        vec!["backend", "frobnicate"],
        vec!["cloud-local", "frobnicate"],
        vec!["manager", "frobnicate"],
    ] {
        let words = strings(&args);
        assert!(route(&words) == Route::Unlisted, "routed {args:?}");
        let outcome: Result<i32, String> = match run_unrouted(&words) {
            Ok(_) => Ok(0),
            Err(message) => Err(message),
        };
        assert_eq!(exit_status(&outcome), 1, "wrong status for {args:?}");
        let mut stderr = String::new();
        write_error(&mut stderr, outcome.as_ref().unwrap_err());
        assert_eq!(
            stderr,
            format!("Error: unknown {}\n", unknown_message(&args)),
            "wrong stderr for {args:?}"
        );
    }
}

#[test]
fn empty_command_words_show_help() {
    assert!(matches!(run_unrouted(&strings(&[""])), Ok(Unrouted::Help)));
    assert!(route(&strings(&[])) == Route::Help);
    assert!(route(&strings(&["help"])) == Route::Help);
    for (word, domain) in [
        ("backend", Domain::Backend),
        ("cloud-local", Domain::CloudLocal),
        ("manager", Domain::Manager),
    ] {
        for action in ["", "help", "--help"] {
            match run_unrouted(&strings(&[word, action])) {
                Ok(Unrouted::DomainHelp(d)) => assert!(d == domain),
                _ => panic!("{word} {action:?} did not show the domain help"),
            }
        }
        assert!(matches!(run_unrouted(&strings(&[word])), Ok(Unrouted::DomainHelp(_))));
    }
    let mut help = String::new();
    write_help(&mut help);
    assert!(help.starts_with("Usage") || !help.is_empty());
}

#[test]
fn routes_take_their_leading_words() {
    let (r, words) = invocation(&strings(&["backend", "start", "core", "--foreground"]));
    assert!(r == Route::BackendStart);
    assert_eq!(words, strings(&["core", "--foreground"]));
    let (r, words) = invocation(&strings(&["init", "backend", "demo"]));
    assert!(r == Route::Init);
    assert_eq!(words, strings(&["backend", "demo"]));
    let (r, words) = invocation(&strings(&["version", "extra"]));
    assert!(r == Route::Version);
    assert!(words.is_empty());
    let (r, words) = invocation(&strings(&["backend"]));
    assert!(r == Route::Unlisted);
    assert_eq!(words, strings(&["backend"]));
    assert!(route(&strings(&["cloud-local", "versions"])) == Route::CloudLocalVersions);
    assert!(route(&strings(&["manager", "restart"])) == Route::ManagerRestart);
}

#[test]
fn exit_status_reports_the_command_status_or_failure() {
    assert_eq!(exit_status(&Ok(0)), 0);
    assert_eq!(exit_status(&Ok(3)), 3);
    assert_eq!(exit_status(&Err("boom".to_owned())), 1);
}
