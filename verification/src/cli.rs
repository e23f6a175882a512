//! Command routing: which implementation an invocation selects.

use vstd::prelude::*;
use crate::args::{asks_help, is_help_word};
use crate::chars::str_eq;
use crate::completion::{completion, completion_result, CompletionOutcome};

verus! {

/// Implementation selected for a command-line invocation.
///
/// Only the two leading words select a route; the rest belongs to the command itself. Anything
/// not listed is left to [`run_unrouted`].
#[derive(Clone, Copy, PartialEq, Eq, Structural, Debug)]
pub enum Route {
    Help,
    Version,
    Init,
    BackendInfo,
    BackendStatus,
    BackendDeviceStatus,
    BackendVersions,
    BackendInstall,
    BackendBuild,
    BackendUninstall,
    BackendUpdate,
    BackendStart,
    BackendStop,
    BackendRestart,
    CloudLocalInfo,
    CloudLocalStatus,
    CloudLocalVersions,
    CloudLocalInstall,
    CloudLocalUninstall,
    CloudLocalUpdate,
    CloudLocalStart,
    CloudLocalStop,
    CloudLocalRestart,
    ManagerInfo,
    ManagerStatus,
    ManagerVersions,
    ManagerInstall,
    ManagerUninstall,
    ManagerUpdate,
    ManagerStart,
    ManagerStop,
    ManagerRestart,
    Unlisted,
}

/// The route of an invocation, from its command word and action word.
pub open spec fn route_of(args: Seq<String>) -> Route {
    if args.len() == 0 || is_help_word(args[0]@) {
        Route::Help
    } else if args[0]@ == "version"@ || args[0]@ == "--version"@ {
        Route::Version
    } else if args[0]@ == "init"@ {
        Route::Init
    } else if args.len() < 2 {
        Route::Unlisted
    } else if args[0]@ == "backend"@ && args[1]@ == "info"@ {
        Route::BackendInfo
    } else if args[0]@ == "backend"@ && args[1]@ == "status"@ {
        Route::BackendStatus
    } else if args[0]@ == "backend"@ && args[1]@ == "device-status"@ {
        Route::BackendDeviceStatus
    } else if args[0]@ == "backend"@ && args[1]@ == "versions"@ {
        Route::BackendVersions
    } else if args[0]@ == "backend"@ && args[1]@ == "install"@ {
        Route::BackendInstall
    } else if args[0]@ == "backend"@ && args[1]@ == "build"@ {
        Route::BackendBuild
    } else if args[0]@ == "backend"@ && args[1]@ == "uninstall"@ {
        Route::BackendUninstall
    } else if args[0]@ == "backend"@ && args[1]@ == "update"@ {
        Route::BackendUpdate
    } else if args[0]@ == "backend"@ && args[1]@ == "start"@ {
        Route::BackendStart
    } else if args[0]@ == "backend"@ && args[1]@ == "stop"@ {
        Route::BackendStop
    } else if args[0]@ == "backend"@ && args[1]@ == "restart"@ {
        Route::BackendRestart
    } else if args[0]@ == "cloud-local"@ && args[1]@ == "info"@ {
        Route::CloudLocalInfo
    } else if args[0]@ == "cloud-local"@ && args[1]@ == "status"@ {
        Route::CloudLocalStatus
    } else if args[0]@ == "cloud-local"@ && args[1]@ == "versions"@ {
        Route::CloudLocalVersions
    } else if args[0]@ == "cloud-local"@ && args[1]@ == "install"@ {
        Route::CloudLocalInstall
    } else if args[0]@ == "cloud-local"@ && args[1]@ == "uninstall"@ {
        Route::CloudLocalUninstall
    } else if args[0]@ == "cloud-local"@ && args[1]@ == "update"@ {
        Route::CloudLocalUpdate
    } else if args[0]@ == "cloud-local"@ && args[1]@ == "start"@ {
        Route::CloudLocalStart
    } else if args[0]@ == "cloud-local"@ && args[1]@ == "stop"@ {
        Route::CloudLocalStop
    } else if args[0]@ == "cloud-local"@ && args[1]@ == "restart"@ {
        Route::CloudLocalRestart
    } else if args[0]@ == "manager"@ && args[1]@ == "info"@ {
        Route::ManagerInfo
    } else if args[0]@ == "manager"@ && args[1]@ == "status"@ {
        Route::ManagerStatus
    } else if args[0]@ == "manager"@ && args[1]@ == "versions"@ {
        Route::ManagerVersions
    } else if args[0]@ == "manager"@ && args[1]@ == "install"@ {
        Route::ManagerInstall
    } else if args[0]@ == "manager"@ && args[1]@ == "uninstall"@ {
        Route::ManagerUninstall
    } else if args[0]@ == "manager"@ && args[1]@ == "update"@ {
        Route::ManagerUpdate
    } else if args[0]@ == "manager"@ && args[1]@ == "start"@ {
        Route::ManagerStart
    } else if args[0]@ == "manager"@ && args[1]@ == "stop"@ {
        Route::ManagerStop
    } else if args[0]@ == "manager"@ && args[1]@ == "restart"@ {
        Route::ManagerRestart
    } else {
        Route::Unlisted
    }
}

/// The command word and the action word of a command's route; `None` for the routes that no
/// command-and-action pair selects.
pub open spec fn route_words(r: Route) -> Option<(Seq<char>, Seq<char>)> {
    match r {
        Route::BackendInfo => Some(("backend"@, "info"@)),
        Route::BackendStatus => Some(("backend"@, "status"@)),
        Route::BackendDeviceStatus => Some(("backend"@, "device-status"@)),
        Route::BackendVersions => Some(("backend"@, "versions"@)),
        Route::BackendInstall => Some(("backend"@, "install"@)),
        Route::BackendBuild => Some(("backend"@, "build"@)),
        Route::BackendUninstall => Some(("backend"@, "uninstall"@)),
        Route::BackendUpdate => Some(("backend"@, "update"@)),
        Route::BackendStart => Some(("backend"@, "start"@)),
        Route::BackendStop => Some(("backend"@, "stop"@)),
        Route::BackendRestart => Some(("backend"@, "restart"@)),
        Route::CloudLocalInfo => Some(("cloud-local"@, "info"@)),
        Route::CloudLocalStatus => Some(("cloud-local"@, "status"@)),
        Route::CloudLocalVersions => Some(("cloud-local"@, "versions"@)),
        Route::CloudLocalInstall => Some(("cloud-local"@, "install"@)),
        Route::CloudLocalUninstall => Some(("cloud-local"@, "uninstall"@)),
        Route::CloudLocalUpdate => Some(("cloud-local"@, "update"@)),
        Route::CloudLocalStart => Some(("cloud-local"@, "start"@)),
        Route::CloudLocalStop => Some(("cloud-local"@, "stop"@)),
        Route::CloudLocalRestart => Some(("cloud-local"@, "restart"@)),
        Route::ManagerInfo => Some(("manager"@, "info"@)),
        Route::ManagerStatus => Some(("manager"@, "status"@)),
        Route::ManagerVersions => Some(("manager"@, "versions"@)),
        Route::ManagerInstall => Some(("manager"@, "install"@)),
        Route::ManagerUninstall => Some(("manager"@, "uninstall"@)),
        Route::ManagerUpdate => Some(("manager"@, "update"@)),
        Route::ManagerStart => Some(("manager"@, "start"@)),
        Route::ManagerStop => Some(("manager"@, "stop"@)),
        Route::ManagerRestart => Some(("manager"@, "restart"@)),
        _ => None,
    }
}

/// The actions each command offers.
pub open spec fn command_actions(command: Seq<char>) -> Seq<Seq<char>> {
    if command == "backend"@ {
        seq!["info"@, "status"@, "device-status"@, "versions"@, "install"@, "build"@, "uninstall"@,
            "update"@, "start"@, "stop"@, "restart"@]
    } else if command == "cloud-local"@ || command == "manager"@ {
        seq!["info"@, "status"@, "versions"@, "install"@, "uninstall"@, "update"@, "start"@, "stop"@,
            "restart"@]
    } else {
        seq![]
    }
}

/// The words of the command line are told apart.
proof fn lemma_route_words_distinct()
    ensures
        "--help"@ != "--version"@,
        "--help"@ != "backend"@,
        "--help"@ != "build"@,
        "--help"@ != "cloud-local"@,
        "--help"@ != "device-status"@,
        "--help"@ != "help"@,
        "--help"@ != "info"@,
        "--help"@ != "init"@,
        "--help"@ != "install"@,
        "--help"@ != "manager"@,
        "--help"@ != "restart"@,
        "--help"@ != "start"@,
        "--help"@ != "status"@,
        "--help"@ != "stop"@,
        "--help"@ != "uninstall"@,
        "--help"@ != "update"@,
        "--help"@ != "version"@,
        "--help"@ != "versions"@,
        "--version"@ != "backend"@,
        "--version"@ != "build"@,
        "--version"@ != "cloud-local"@,
        "--version"@ != "device-status"@,
        "--version"@ != "help"@,
        "--version"@ != "info"@,
        "--version"@ != "init"@,
        "--version"@ != "install"@,
        "--version"@ != "manager"@,
        "--version"@ != "restart"@,
        "--version"@ != "start"@,
        "--version"@ != "status"@,
        "--version"@ != "stop"@,
        "--version"@ != "uninstall"@,
        "--version"@ != "update"@,
        "--version"@ != "version"@,
        "--version"@ != "versions"@,
        "backend"@ != "build"@,
        "backend"@ != "cloud-local"@,
        "backend"@ != "device-status"@,
        "backend"@ != "help"@,
        "backend"@ != "info"@,
        "backend"@ != "init"@,
        "backend"@ != "install"@,
        "backend"@ != "manager"@,
        "backend"@ != "restart"@,
        "backend"@ != "start"@,
        "backend"@ != "status"@,
        "backend"@ != "stop"@,
        "backend"@ != "uninstall"@,
        "backend"@ != "update"@,
        "backend"@ != "version"@,
        "backend"@ != "versions"@,
        "build"@ != "cloud-local"@,
        "build"@ != "device-status"@,
        "build"@ != "help"@,
        "build"@ != "info"@,
        "build"@ != "init"@,
        "build"@ != "install"@,
        "build"@ != "manager"@,
        "build"@ != "restart"@,
        "build"@ != "start"@,
        "build"@ != "status"@,
        "build"@ != "stop"@,
        "build"@ != "uninstall"@,
        "build"@ != "update"@,
        "build"@ != "version"@,
        "build"@ != "versions"@,
        "cloud-local"@ != "device-status"@,
        "cloud-local"@ != "help"@,
        "cloud-local"@ != "info"@,
        "cloud-local"@ != "init"@,
        "cloud-local"@ != "install"@,
        "cloud-local"@ != "manager"@,
        "cloud-local"@ != "restart"@,
        "cloud-local"@ != "start"@,
        "cloud-local"@ != "status"@,
        "cloud-local"@ != "stop"@,
        "cloud-local"@ != "uninstall"@,
        "cloud-local"@ != "update"@,
        "cloud-local"@ != "version"@,
        "cloud-local"@ != "versions"@,
        "device-status"@ != "help"@,
        "device-status"@ != "info"@,
        "device-status"@ != "init"@,
        "device-status"@ != "install"@,
        "device-status"@ != "manager"@,
        "device-status"@ != "restart"@,
        "device-status"@ != "start"@,
        "device-status"@ != "status"@,
        "device-status"@ != "stop"@,
        "device-status"@ != "uninstall"@,
        "device-status"@ != "update"@,
        "device-status"@ != "version"@,
        "device-status"@ != "versions"@,
        "help"@ != "info"@,
        "help"@ != "init"@,
        "help"@ != "install"@,
        "help"@ != "manager"@,
        "help"@ != "restart"@,
        "help"@ != "start"@,
        "help"@ != "status"@,
        "help"@ != "stop"@,
        "help"@ != "uninstall"@,
        "help"@ != "update"@,
        "help"@ != "version"@,
        "help"@ != "versions"@,
        "info"@ != "init"@,
        "info"@ != "install"@,
        "info"@ != "manager"@,
        "info"@ != "restart"@,
        "info"@ != "start"@,
        "info"@ != "status"@,
        "info"@ != "stop"@,
        "info"@ != "uninstall"@,
        "info"@ != "update"@,
        "info"@ != "version"@,
        "info"@ != "versions"@,
        "init"@ != "install"@,
        "init"@ != "manager"@,
        "init"@ != "restart"@,
        "init"@ != "start"@,
        "init"@ != "status"@,
        "init"@ != "stop"@,
        "init"@ != "uninstall"@,
        "init"@ != "update"@,
        "init"@ != "version"@,
        "init"@ != "versions"@,
        "install"@ != "manager"@,
        "install"@ != "restart"@,
        "install"@ != "start"@,
        "install"@ != "status"@,
        "install"@ != "stop"@,
        "install"@ != "uninstall"@,
        "install"@ != "update"@,
        "install"@ != "version"@,
        "install"@ != "versions"@,
        "manager"@ != "restart"@,
        "manager"@ != "start"@,
        "manager"@ != "status"@,
        "manager"@ != "stop"@,
        "manager"@ != "uninstall"@,
        "manager"@ != "update"@,
        "manager"@ != "version"@,
        "manager"@ != "versions"@,
        "restart"@ != "start"@,
        "restart"@ != "status"@,
        "restart"@ != "stop"@,
        "restart"@ != "uninstall"@,
        "restart"@ != "update"@,
        "restart"@ != "version"@,
        "restart"@ != "versions"@,
        "start"@ != "status"@,
        "start"@ != "stop"@,
        "start"@ != "uninstall"@,
        "start"@ != "update"@,
        "start"@ != "version"@,
        "start"@ != "versions"@,
        "status"@ != "stop"@,
        "status"@ != "uninstall"@,
        "status"@ != "update"@,
        "status"@ != "version"@,
        "status"@ != "versions"@,
        "stop"@ != "uninstall"@,
        "stop"@ != "update"@,
        "stop"@ != "version"@,
        "stop"@ != "versions"@,
        "uninstall"@ != "update"@,
        "uninstall"@ != "version"@,
        "uninstall"@ != "versions"@,
        "update"@ != "version"@,
        "update"@ != "versions"@,
        "version"@ != "versions"@,
{
    reveal_strlit("--help");
    reveal_strlit("--version");
    reveal_strlit("backend");
    reveal_strlit("build");
    reveal_strlit("cloud-local");
    reveal_strlit("device-status");
    reveal_strlit("help");
    reveal_strlit("info");
    reveal_strlit("init");
    reveal_strlit("install");
    reveal_strlit("manager");
    reveal_strlit("restart");
    reveal_strlit("start");
    reveal_strlit("status");
    reveal_strlit("stop");
    reveal_strlit("uninstall");
    reveal_strlit("update");
    reveal_strlit("version");
    reveal_strlit("versions");
    assert("--help"@.len() != "--version"@.len());
    assert("--help"@.len() != "backend"@.len());
    assert("--help"@.len() != "build"@.len());
    assert("--help"@.len() != "cloud-local"@.len());
    assert("--help"@.len() != "device-status"@.len());
    assert("--help"@.len() != "help"@.len());
    assert("--help"@.len() != "info"@.len());
    assert("--help"@.len() != "init"@.len());
    assert("--help"@.len() != "install"@.len());
    assert("--help"@.len() != "manager"@.len());
    assert("--help"@.len() != "restart"@.len());
    assert("--help"@.len() != "start"@.len());
    assert("--help"@[0] != "status"@[0]);
    assert("--help"@.len() != "stop"@.len());
    assert("--help"@.len() != "uninstall"@.len());
    assert("--help"@[0] != "update"@[0]);
    assert("--help"@.len() != "version"@.len());
    assert("--help"@.len() != "versions"@.len());
    assert("--version"@.len() != "backend"@.len());
    assert("--version"@.len() != "build"@.len());
    assert("--version"@.len() != "cloud-local"@.len());
    assert("--version"@.len() != "device-status"@.len());
    assert("--version"@.len() != "help"@.len());
    assert("--version"@.len() != "info"@.len());
    assert("--version"@.len() != "init"@.len());
    assert("--version"@.len() != "install"@.len());
    assert("--version"@.len() != "manager"@.len());
    assert("--version"@.len() != "restart"@.len());
    assert("--version"@.len() != "start"@.len());
    assert("--version"@.len() != "status"@.len());
    assert("--version"@.len() != "stop"@.len());
    assert("--version"@[0] != "uninstall"@[0]);
    assert("--version"@.len() != "update"@.len());
    assert("--version"@.len() != "version"@.len());
    assert("--version"@.len() != "versions"@.len());
    assert("backend"@.len() != "build"@.len());
    assert("backend"@.len() != "cloud-local"@.len());
    assert("backend"@.len() != "device-status"@.len());
    assert("backend"@.len() != "help"@.len());
    assert("backend"@.len() != "info"@.len());
    assert("backend"@.len() != "init"@.len());
    assert("backend"@[0] != "install"@[0]);
    assert("backend"@[0] != "manager"@[0]);
    assert("backend"@[0] != "restart"@[0]);
    assert("backend"@.len() != "start"@.len());
    assert("backend"@.len() != "status"@.len());
    assert("backend"@.len() != "stop"@.len());
    assert("backend"@.len() != "uninstall"@.len());
    assert("backend"@.len() != "update"@.len());
    assert("backend"@[0] != "version"@[0]);
    assert("backend"@.len() != "versions"@.len());
    assert("build"@.len() != "cloud-local"@.len());
    assert("build"@.len() != "device-status"@.len());
    assert("build"@.len() != "help"@.len());
    assert("build"@.len() != "info"@.len());
    assert("build"@.len() != "init"@.len());
    assert("build"@.len() != "install"@.len());
    assert("build"@.len() != "manager"@.len());
    assert("build"@.len() != "restart"@.len());
    assert("build"@[0] != "start"@[0]);
    assert("build"@.len() != "status"@.len());
    assert("build"@.len() != "stop"@.len());
    assert("build"@.len() != "uninstall"@.len());
    assert("build"@.len() != "update"@.len());
    assert("build"@.len() != "version"@.len());
    assert("build"@.len() != "versions"@.len());
    assert("cloud-local"@.len() != "device-status"@.len());
    assert("cloud-local"@.len() != "help"@.len());
    assert("cloud-local"@.len() != "info"@.len());
    assert("cloud-local"@.len() != "init"@.len());
    assert("cloud-local"@.len() != "install"@.len());
    assert("cloud-local"@.len() != "manager"@.len());
    assert("cloud-local"@.len() != "restart"@.len());
    assert("cloud-local"@.len() != "start"@.len());
    assert("cloud-local"@.len() != "status"@.len());
    assert("cloud-local"@.len() != "stop"@.len());
    assert("cloud-local"@.len() != "uninstall"@.len());
    assert("cloud-local"@.len() != "update"@.len());
    assert("cloud-local"@.len() != "version"@.len());
    assert("cloud-local"@.len() != "versions"@.len());
    assert("device-status"@.len() != "help"@.len());
    assert("device-status"@.len() != "info"@.len());
    assert("device-status"@.len() != "init"@.len());
    assert("device-status"@.len() != "install"@.len());
    assert("device-status"@.len() != "manager"@.len());
    assert("device-status"@.len() != "restart"@.len());
    assert("device-status"@.len() != "start"@.len());
    assert("device-status"@.len() != "status"@.len());
    assert("device-status"@.len() != "stop"@.len());
    assert("device-status"@.len() != "uninstall"@.len());
    assert("device-status"@.len() != "update"@.len());
    assert("device-status"@.len() != "version"@.len());
    assert("device-status"@.len() != "versions"@.len());
    assert("help"@[0] != "info"@[0]);
    assert("help"@[0] != "init"@[0]);
    assert("help"@.len() != "install"@.len());
    assert("help"@.len() != "manager"@.len());
    assert("help"@.len() != "restart"@.len());
    assert("help"@.len() != "start"@.len());
    assert("help"@.len() != "status"@.len());
    assert("help"@[0] != "stop"@[0]);
    assert("help"@.len() != "uninstall"@.len());
    assert("help"@.len() != "update"@.len());
    assert("help"@.len() != "version"@.len());
    assert("help"@.len() != "versions"@.len());
    assert("info"@[2] != "init"@[2]);
    assert("info"@.len() != "install"@.len());
    assert("info"@.len() != "manager"@.len());
    assert("info"@.len() != "restart"@.len());
    assert("info"@.len() != "start"@.len());
    assert("info"@.len() != "status"@.len());
    assert("info"@[0] != "stop"@[0]);
    assert("info"@.len() != "uninstall"@.len());
    assert("info"@.len() != "update"@.len());
    assert("info"@.len() != "version"@.len());
    assert("info"@.len() != "versions"@.len());
    assert("init"@.len() != "install"@.len());
    assert("init"@.len() != "manager"@.len());
    assert("init"@.len() != "restart"@.len());
    assert("init"@.len() != "start"@.len());
    assert("init"@.len() != "status"@.len());
    assert("init"@[0] != "stop"@[0]);
    assert("init"@.len() != "uninstall"@.len());
    assert("init"@.len() != "update"@.len());
    assert("init"@.len() != "version"@.len());
    assert("init"@.len() != "versions"@.len());
    assert("install"@[0] != "manager"@[0]);
    assert("install"@[0] != "restart"@[0]);
    assert("install"@.len() != "start"@.len());
    assert("install"@.len() != "status"@.len());
    assert("install"@.len() != "stop"@.len());
    assert("install"@.len() != "uninstall"@.len());
    assert("install"@.len() != "update"@.len());
    assert("install"@[0] != "version"@[0]);
    assert("install"@.len() != "versions"@.len());
    assert("manager"@[0] != "restart"@[0]);
    assert("manager"@.len() != "start"@.len());
    assert("manager"@.len() != "status"@.len());
    assert("manager"@.len() != "stop"@.len());
    assert("manager"@.len() != "uninstall"@.len());
    assert("manager"@.len() != "update"@.len());
    assert("manager"@[0] != "version"@[0]);
    assert("manager"@.len() != "versions"@.len());
    assert("restart"@.len() != "start"@.len());
    assert("restart"@.len() != "status"@.len());
    assert("restart"@.len() != "stop"@.len());
    assert("restart"@.len() != "uninstall"@.len());
    assert("restart"@.len() != "update"@.len());
    assert("restart"@[0] != "version"@[0]);
    assert("restart"@.len() != "versions"@.len());
    assert("start"@.len() != "status"@.len());
    assert("start"@.len() != "stop"@.len());
    assert("start"@.len() != "uninstall"@.len());
    assert("start"@.len() != "update"@.len());
    assert("start"@.len() != "version"@.len());
    assert("start"@.len() != "versions"@.len());
    assert("status"@.len() != "stop"@.len());
    assert("status"@.len() != "uninstall"@.len());
    assert("status"@[0] != "update"@[0]);
    assert("status"@.len() != "version"@.len());
    assert("status"@.len() != "versions"@.len());
    assert("stop"@.len() != "uninstall"@.len());
    assert("stop"@.len() != "update"@.len());
    assert("stop"@.len() != "version"@.len());
    assert("stop"@.len() != "versions"@.len());
    assert("uninstall"@.len() != "update"@.len());
    assert("uninstall"@.len() != "version"@.len());
    assert("uninstall"@.len() != "versions"@.len());
    assert("update"@.len() != "version"@.len());
    assert("update"@.len() != "versions"@.len());
    assert("version"@.len() != "versions"@.len());
}

/// A command line `<command> <action> ...` runs the action it names: when the command offers the
/// action, the route is the one of that command and that action; otherwise it is left unlisted.
pub proof fn law_route_runs_the_named_action(args: Seq<String>)
    requires
        args.len() >= 2,
        args[0]@ == "backend"@ || args[0]@ == "cloud-local"@ || args[0]@ == "manager"@,
    ensures
        command_actions(args[0]@).contains(args[1]@) ==> route_words(route_of(args)) == Some(
            (args[0]@, args[1]@),
        ),
        !command_actions(args[0]@).contains(args[1]@) ==> route_of(args) == Route::Unlisted,
{
    lemma_route_words_distinct();
    let acts = command_actions(args[0]@);
    if acts.contains(args[1]@) {
        let i = choose|i: int| 0 <= i < acts.len() && acts[i] == args[1]@;
        assert(acts[i] == args[1]@);
    } else {
        assert forall|i: int| 0 <= i < acts.len() implies acts[i] != args[1]@ by {}
        assert(acts.len() > 8);
        assert(args[1]@ != acts[0] && args[1]@ != acts[1] && args[1]@ != acts[2] && args[1]@ != acts[3]
            && args[1]@ != acts[4] && args[1]@ != acts[5] && args[1]@ != acts[6] && args[1]@ != acts[7]
            && args[1]@ != acts[8]);
        if args[0]@ == "backend"@ {
            assert(args[1]@ != acts[9] && args[1]@ != acts[10]);
        }
    }
}

/// The first word alone selects help, the version, and `init`, whatever follows it; a command
/// line without words asks for help, and a command word with no action is left unlisted.
pub proof fn law_route_of_leading_word(args: Seq<String>)
    ensures
        args.len() == 0 ==> route_of(args) == Route::Help,
        args.len() > 0 && (args[0]@ == "help"@ || args[0]@ == "--help"@) ==> route_of(args) == Route::Help,
        args.len() > 0 && (args[0]@ == "version"@ || args[0]@ == "--version"@) ==> route_of(args)
            == Route::Version,
        args.len() > 0 && args[0]@ == "init"@ ==> route_of(args) == Route::Init,
        args.len() == 1 && (args[0]@ == "backend"@ || args[0]@ == "cloud-local"@ || args[0]@
            == "manager"@) ==> route_of(args) == Route::Unlisted,
{
    lemma_route_words_distinct();
}

/// Selects the implementation for an invocation.
pub fn route(args: &Vec<String>) -> (r: Route)
    ensures
        r == route_of(args@),
{
    if args.len() == 0 {
        return Route::Help;
    }
    let command = args[0].as_str();
    if str_eq(command, "help") || str_eq(command, "--help") {
        return Route::Help;
    }
    if str_eq(command, "version") || str_eq(command, "--version") {
        return Route::Version;
    }
    if str_eq(command, "init") {
        return Route::Init;
    }
    if args.len() < 2 {
        return Route::Unlisted;
    }
    let action = args[1].as_str();
    if str_eq(command, "backend") && str_eq(action, "info") {
        return Route::BackendInfo;
    }
    if str_eq(command, "backend") && str_eq(action, "status") {
        return Route::BackendStatus;
    }
    if str_eq(command, "backend") && str_eq(action, "device-status") {
        return Route::BackendDeviceStatus;
    }
    if str_eq(command, "backend") && str_eq(action, "versions") {
        return Route::BackendVersions;
    }
    if str_eq(command, "backend") && str_eq(action, "install") {
        return Route::BackendInstall;
    }
    if str_eq(command, "backend") && str_eq(action, "build") {
        return Route::BackendBuild;
    }
    if str_eq(command, "backend") && str_eq(action, "uninstall") {
        return Route::BackendUninstall;
    }
    if str_eq(command, "backend") && str_eq(action, "update") {
        return Route::BackendUpdate;
    }
    if str_eq(command, "backend") && str_eq(action, "start") {
        return Route::BackendStart;
    }
    if str_eq(command, "backend") && str_eq(action, "stop") {
        return Route::BackendStop;
    }
    if str_eq(command, "backend") && str_eq(action, "restart") {
        return Route::BackendRestart;
    }
    if str_eq(command, "cloud-local") && str_eq(action, "info") {
        return Route::CloudLocalInfo;
    }
    if str_eq(command, "cloud-local") && str_eq(action, "status") {
        return Route::CloudLocalStatus;
    }
    if str_eq(command, "cloud-local") && str_eq(action, "versions") {
        return Route::CloudLocalVersions;
    }
    if str_eq(command, "cloud-local") && str_eq(action, "install") {
        return Route::CloudLocalInstall;
    }
    if str_eq(command, "cloud-local") && str_eq(action, "uninstall") {
        return Route::CloudLocalUninstall;
    }
    if str_eq(command, "cloud-local") && str_eq(action, "update") {
        return Route::CloudLocalUpdate;
    }
    if str_eq(command, "cloud-local") && str_eq(action, "start") {
        return Route::CloudLocalStart;
    }
    if str_eq(command, "cloud-local") && str_eq(action, "stop") {
        return Route::CloudLocalStop;
    }
    if str_eq(command, "cloud-local") && str_eq(action, "restart") {
        return Route::CloudLocalRestart;
    }
    if str_eq(command, "manager") && str_eq(action, "info") {
        return Route::ManagerInfo;
    }
    if str_eq(command, "manager") && str_eq(action, "status") {
        return Route::ManagerStatus;
    }
    if str_eq(command, "manager") && str_eq(action, "versions") {
        return Route::ManagerVersions;
    }
    if str_eq(command, "manager") && str_eq(action, "install") {
        return Route::ManagerInstall;
    }
    if str_eq(command, "manager") && str_eq(action, "uninstall") {
        return Route::ManagerUninstall;
    }
    if str_eq(command, "manager") && str_eq(action, "update") {
        return Route::ManagerUpdate;
    }
    if str_eq(command, "manager") && str_eq(action, "start") {
        return Route::ManagerStart;
    }
    if str_eq(command, "manager") && str_eq(action, "stop") {
        return Route::ManagerStop;
    }
    if str_eq(command, "manager") && str_eq(action, "restart") {
        return Route::ManagerRestart;
    }
    Route::Unlisted
}

/// A command family with its own help text.
#[derive(Clone, Copy, PartialEq, Eq, Structural, Debug)]
pub enum Domain {
    Backend,
    CloudLocal,
    Manager,
}

/// The domain a command word names.
pub open spec fn domain_of(word: Seq<char>) -> Option<Domain> {
    if word == "backend"@ {
        Some(Domain::Backend)
    } else if word == "cloud-local"@ {
        Some(Domain::CloudLocal)
    } else if word == "manager"@ {
        Some(Domain::Manager)
    } else {
        None
    }
}

/// What an invocation outside the explicit routes does.
pub enum Unrouted {
    /// Print the top-level help.
    Help,
    /// Print the help of a domain.
    DomainHelp(Domain),
    /// Render the result of `completion`.
    Completion(CompletionOutcome),
}

/// The result of an invocation outside the explicit routes: `None` for the top-level help,
/// `Some(Ok(domain))` for the help of a domain, `Some(Err(()))` for completion, or the error.
pub open spec fn unrouted_result(args: Seq<String>) -> Result<Option<Result<Domain, ()>>, Seq<char>> {
    if args.len() == 0 || args[0]@.len() == 0 {
        Ok(None)
    } else if args[0]@ == "completion"@ {
        Ok(Some(Err(())))
    } else {
        match domain_of(args[0]@) {
            Some(d) => if args.len() < 2 || args[1]@.len() == 0 || is_help_word(args[1]@) {
                Ok(Some(Ok(d)))
            } else {
                Err("unknown "@ + args[0]@ + " command: "@ + args[1]@)
            },
            None => Err("unknown command: "@ + args[0]@),
        }
    }
}

/// Handles an invocation that no explicit route selects: an empty command word shows the
/// top-level help, `completion` prints a completion script, a domain without an action (or with
/// an empty one, or a usage request) shows the domain help, and anything else is an unknown
/// command.
pub fn run_unrouted(args: &Vec<String>) -> (r: Result<Unrouted, String>)
    ensures
        match (r, unrouted_result(args@)) {
            (Ok(Unrouted::Help), Ok(None)) => true,
            (Ok(Unrouted::DomainHelp(d)), Ok(Some(Ok(e)))) => d == e,
            (Ok(Unrouted::Completion(o)), Ok(Some(Err(())))) => completion_result(args@.skip(1))
                == Ok::<(Option<Seq<char>>, i32), Seq<char>>(o@),
            (Err(m), Ok(Some(Err(())))) => completion_result(args@.skip(1)) == Err::<
                (Option<Seq<char>>, i32),
                Seq<char>,
            >(m@),
            (Err(m), Err(e)) => m@ == e,
            _ => false,
        },
{
    if args.len() == 0 || args[0].as_str().unicode_len() == 0 {
        return Ok(Unrouted::Help);
    }
    let command = args[0].as_str();
    if str_eq(command, "completion") {
        let mut rest: Vec<String> = Vec::new();
        let mut i: usize = 1;
        while i < args.len()
            invariant
                1 <= i <= args@.len(),
                rest@ == args@.subrange(1, i as int),
            decreases args@.len() - i,
        {
            rest.push(args[i].clone());
            i = i + 1;
            assert(rest@ =~= args@.subrange(1, i as int));
        }
        assert(rest@ =~= args@.skip(1));
        return match completion(&rest) {
            Ok(o) => Ok(Unrouted::Completion(o)),
            Err(e) => Err(e),
        };
    }
    let domain = if str_eq(command, "backend") {
        Domain::Backend
    } else if str_eq(command, "cloud-local") {
        Domain::CloudLocal
    } else if str_eq(command, "manager") {
        Domain::Manager
    } else {
        let mut m = "unknown command: ".to_owned();
        m.append(command);
        return Err(m);
    };
    if args.len() < 2 || args[1].as_str().unicode_len() == 0 || crate::args::is_help_arg(args[1].as_str()) {
        return Ok(Unrouted::DomainHelp(domain));
    }
    let mut m = "unknown ".to_owned();
    m.append(command);
    m.append(" command: ");
    m.append(args[1].as_str());
    Err(m)
}


/// The words a routed command receives: `init` consumes its one leading word, every template
/// command its two; the help and version routes take none, and an unrouted invocation keeps them
/// all.
pub open spec fn routed_words(args: Seq<String>) -> Seq<String> {
    match route_of(args) {
        Route::Help | Route::Version => seq![],
        Route::Init => args.skip(1),
        Route::Unlisted => args,
        _ => args.skip(2),
    }
}

/// Selects the implementation of an invocation and the words it receives.
pub fn invocation(args: &Vec<String>) -> (r: (Route, Vec<String>))
    ensures
        r.0 == route_of(args@),
        r.1@ == routed_words(args@),
{
    let route = route(args);
    let start: usize = match route {
        Route::Help | Route::Version => args.len(),
        Route::Init => 1,
        Route::Unlisted => 0,
        _ => 2,
    };
    let mut words: Vec<String> = Vec::new();
    let mut i: usize = start;
    while i < args.len()
        invariant
            start <= i <= args@.len(),
            words@ == args@.subrange(start as int, i as int),
        decreases args@.len() - i,
    {
        words.push(args[i].clone());
        i = i + 1;
        assert(words@ =~= args@.subrange(start as int, i as int));
    }
    assert(words@ =~= routed_words(args@));
    (route, words)
}

/// The exit status of an invocation: the status its command reports, or 1 for a failure, whose
/// message goes to the error stream.
pub fn exit_status(outcome: &Result<i32, String>) -> (r: i32)
    ensures
        match outcome {
            Ok(code) => r == *code,
            Err(_) => r == 1,
        },
{
    match outcome {
        Ok(code) => *code,
        Err(_) => 1,
    }
}


/// Only the two leading words select a route; the rest belongs to the command itself.
pub proof fn law_route_reads_two_words(args: Seq<String>, more: Seq<String>)
    requires
        args.len() >= 2,
    ensures
        route_of(args + more) == route_of(args),
{
    assert((args + more)[0] == args[0]);
    assert((args + more)[1] == args[1]);
}

} // verus!
