//! Text representation of command results.
//!
//! Command logic returns data; these functions own its text formatting and append the text to a
//! buffer that the entrypoint writes out. They do not select routes or execute commands.

use vstd::prelude::*;
use crate::backend::{BackendDeviceStatus, BackendInfo, BackendStatus};
use crate::chars::{append_str, append_vec, chars_of, str_starts_with, string_of};
use crate::cloud_local::{CloudLocalInfo, CloudLocalStatus};
use crate::completion::{CompletionOutcome, CompletionOutput};
use crate::init::{InitOutcome, InitOutput};
use crate::lifecycle::{LifecycleKind, LifecycleOutcome, LifecycleOutput};
use crate::manager::{ManagerInfo, ManagerStatus};
use crate::numbers::{decimal, push_decimal};
use crate::operations::{OperationKind, OperationOutcome};
use crate::service::ServiceStatus;
use crate::version::VersionInfo;
use crate::versions::{VersionEntry, VersionsKind, VersionsOutcome, VersionsOutput};

verus! {
pub const TOP_LEVEL_HELP: &'static str = "Usage:\n  oqtopus <command> [args]\n\nCommands:\n  init         Create an OQTOPUS environment.\n  cloud-local  Manage local cloud-local components and services.\n  backend      Manage local backend components and services.\n  manager      Manage the local manager component and service.\n  completion   Print shell completion scripts.\n  version      Print the installed CLI version.\n  help         Show help.\n\nRun 'oqtopus <command> help' for command-specific help.\n";
pub const INIT_USAGE: &'static str = "Usage:\n  oqtopus init <env_name> --template backend [--branch <branch>]\n  oqtopus init <env_name> --template cloud-local [--branch <branch>]\n  oqtopus init <env_name> --template manager [--branch <branch>]\n\nCreates a local OQTOPUS environment from the official template.\n\nOptions:\n  --branch <branch>  Fetch the template from this branch of oqtopus-cli\n                      instead of 'main'. Mainly useful for testing\n                      in-development templates.\n";
pub const BACKEND_HELP: &'static str = "Usage:\n  oqtopus backend <command> [args]\n\nCommands:\n  install         Install backend component releases.\n  build           Build backend runtime artifacts.\n  versions        List available component versions.\n  uninstall       Remove an installed release.\n  update          Install the latest release of a component.\n  start           Start a managed service.\n  stop            Stop a managed service.\n  restart         Restart a managed service.\n  status          Show process status.\n  device-status   Show or update gateway device status.\n  info            Show backend environment information.\n  help            Show help.\n";
pub const CLOUD_LOCAL_HELP: &'static str = "Usage:\n  oqtopus cloud-local <command> [args]\n\nCommands:\n  install         Install cloud-local component releases.\n  versions        List available component versions.\n  uninstall       Remove an installed release.\n  update          Install the latest release of a component.\n  start           Start a managed service.\n  stop            Stop a managed service.\n  restart         Restart a managed service.\n  status          Show process status.\n  info            Show environment metadata.\n  help            Show this help.\n";
pub const MANAGER_HELP: &'static str = "Usage:\n  oqtopus manager <command> [args]\n\nCommands:\n  install    Install a manager release.\n  uninstall  Remove an installed release.\n  update     Install the latest release and update the environment binding.\n  versions   List available manager versions.\n  start      Start the manager service.\n  stop       Stop the manager service.\n  restart    Restart the manager service.\n  status     Show process status.\n  info       Show manager environment information.\n  help       Show this help.\n";
pub const BACKEND_DEVICE_STATUS_USAGE: &'static str = "Usage:\n  oqtopus backend device-status <show|active|inactive|maintenance>\n";
pub const COMPLETION_USAGE: &'static str = "Usage:\n  oqtopus completion <bash|zsh|fish>\n";

/// Appends `s` to `out`.
fn emit(out: &mut String, s: &str)
    ensures
        final(out)@ == old(out)@ + s@,
{
    out.append(s);
}

/// Appends the top-level help.
pub fn write_help(out: &mut String)
    ensures
        final(out)@ == old(out)@ + TOP_LEVEL_HELP@,
{
    emit(out, TOP_LEVEL_HELP);
}

/// Appends the backend help.
pub fn write_backend_help(out: &mut String)
    ensures
        final(out)@ == old(out)@ + BACKEND_HELP@,
{
    emit(out, BACKEND_HELP);
}

/// Appends the cloud-local help.
pub fn write_cloud_local_help(out: &mut String)
    ensures
        final(out)@ == old(out)@ + CLOUD_LOCAL_HELP@,
{
    emit(out, CLOUD_LOCAL_HELP);
}

/// Appends the manager help.
pub fn write_manager_help(out: &mut String)
    ensures
        final(out)@ == old(out)@ + MANAGER_HELP@,
{
    emit(out, MANAGER_HELP);
}

/// Appends `oqtopus <version>` and a line feed.
pub fn write_version(out: &mut String, info: &VersionInfo)
    ensures
        final(out)@ == old(out)@ + "oqtopus "@ + info.version@ + "\n"@,
{
    emit(out, "oqtopus ");
    emit(out, info.version.as_str());
    emit(out, "\n");
}

/// The text `init` renders.
pub open spec fn init_text(output: InitOutput) -> Seq<char> {
    match output {
        InitOutput::Usage => INIT_USAGE@,
        InitOutput::Created { template, root } => "Created "@ + template@ + " environment: "@ + root@ + "\n"@,
    }
}

/// Appends the result of `init`: its usage text, or the environment it created.
pub fn write_init(out: &mut String, result: &InitOutcome)
    ensures
        final(out)@ == old(out)@ + init_text(result.output),
{
    match &result.output {
        InitOutput::Usage => emit(out, INIT_USAGE),
        InitOutput::Created { template, root } => {
            emit(out, "Created ");
            emit(out, template.as_str());
            emit(out, " environment: ");
            emit(out, root.as_str());
            emit(out, "\n");
        },
    }
}

/// Appends the backend metadata verbatim.
pub fn write_backend_info(out: &mut String, info: &BackendInfo)
    ensures
        final(out)@ == old(out)@ + info.metadata@,
{
    emit(out, info.metadata.as_str());
}

/// The status line of a service: running with its PID, or stopped.
pub open spec fn process_status_line(name: Seq<char>, pid: Option<u32>) -> Seq<char> {
    match pid {
        Some(p) => name + ": Running (PID "@ + decimal(p as nat) + ")\n"@,
        None => name + ": Stopped\n"@,
    }
}

/// The status lines of services, in order.
pub open spec fn status_lines(services: Seq<ServiceStatus>) -> Seq<char>
    decreases services.len(),
{
    if services.len() == 0 {
        seq![]
    } else {
        status_lines(services.drop_last()) + process_status_line(services.last().name@, services.last().pid)
    }
}

/// Appends the status line of one service.
pub fn write_process_status(out: &mut String, service: &ServiceStatus)
    ensures
        final(out)@ == old(out)@ + process_status_line(service.name@, service.pid),
{
    match service.pid {
        Some(pid) => {
            let mut line: Vec<char> = chars_of(service.name.as_str());
            append_str(&mut line, ": Running (PID ");
            push_decimal(&mut line, pid as u64);
            append_str(&mut line, ")\n");
            let text = string_of(&line);
            emit(out, text.as_str());
        },
        None => {
            emit(out, service.name.as_str());
            emit(out, ": Stopped\n");
        },
    }
}

fn write_status_lines(out: &mut String, services: &Vec<ServiceStatus>)
    ensures
        final(out)@ == old(out)@ + status_lines(services@),
{
    let ghost start = out@;
    let mut i: usize = 0;
    while i < services.len()
        invariant
            i <= services@.len(),
            out@ == start + status_lines(services@.take(i as int)),
        decreases services@.len() - i,
    {
        write_process_status(out, &services[i]);
        assert(services@.take(i + 1).drop_last() =~= services@.take(i as int));
        assert(services@.take(i + 1).last() == services@[i as int]);
        i = i + 1;
    }
    assert(services@.take(services@.len() as int) =~= services@);
}

/// Appends the status line of every backend service.
pub fn write_backend_status(out: &mut String, status: &BackendStatus)
    ensures
        final(out)@ == old(out)@ + status_lines(status.services@),
{
    write_status_lines(out, &status.services);
}

/// The text `device-status` renders.
pub open spec fn device_status_text(status: BackendDeviceStatus) -> Seq<char> {
    match status {
        BackendDeviceStatus::Help | BackendDeviceStatus::Invalid => BACKEND_DEVICE_STATUS_USAGE@,
        BackendDeviceStatus::Show(contents) => contents@,
        BackendDeviceStatus::Updated(action) => action@ + "\n"@,
    }
}

/// Appends the result of `device-status`: usage, the current status, or the status just set.
pub fn write_backend_device_status(out: &mut String, status: &BackendDeviceStatus)
    ensures
        final(out)@ == old(out)@ + device_status_text(*status),
{
    match status {
        BackendDeviceStatus::Help | BackendDeviceStatus::Invalid => emit(out, BACKEND_DEVICE_STATUS_USAGE),
        BackendDeviceStatus::Show(contents) => emit(out, contents.as_str()),
        BackendDeviceStatus::Updated(action) => {
            emit(out, action);
            emit(out, "\n");
        },
    }
}

/// Appends the cloud-local metadata verbatim.
pub fn write_cloud_local_info(out: &mut String, info: &CloudLocalInfo)
    ensures
        final(out)@ == old(out)@ + info.metadata@,
{
    emit(out, info.metadata.as_str());
}

/// `parts` separated by `separator`.
pub open spec fn join_with(parts: Seq<Seq<char>>, separator: Seq<char>) -> Seq<char>
    decreases parts.len(),
{
    if parts.len() == 0 {
        seq![]
    } else if parts.len() == 1 {
        parts[0]
    } else {
        join_with(parts.drop_last(), separator) + separator + parts.last()
    }
}

/// The database line of the cloud-local status.
pub open spec fn database_status_line(containers: Option<Seq<Seq<char>>>) -> Seq<char> {
    match containers {
        Some(names) => "db: Running ("@ + join_with(names, ", "@) + ")\n"@,
        None => "db: Stopped\n"@,
    }
}

fn append_joined(out: &mut Vec<char>, parts: &Vec<String>, separator: &str)
    ensures
        final(out)@ == old(out)@ + join_with(parts@.map_values(|s: String| s@), separator@),
{
    let ghost start = out@;
    let ghost views = parts@.map_values(|s: String| s@);
    let mut i: usize = 0;
    while i < parts.len()
        invariant
            i <= parts@.len(),
            views == parts@.map_values(|s: String| s@),
            out@ == start + join_with(views.take(i as int), separator@),
        decreases parts@.len() - i,
    {
        let ghost before = out@;
        if i > 0 {
            append_str(out, separator);
        }
        append_str(out, parts[i].as_str());
        proof {
            assert(views.take(i + 1).drop_last() =~= views.take(i as int));
            assert(views.take(i + 1).last() == parts@[i as int]@);
            if i == 0 {
                assert(views.take(1) =~= seq![parts@[0]@]);
                assert(out@ =~= start + join_with(views.take(1), separator@));
            } else {
                assert(out@ =~= start + join_with(views.take(i + 1), separator@));
            }
        }
        i = i + 1;
    }
    assert(views.take(parts@.len() as int) =~= views);
}

/// Appends the cloud-local status: the database line, then every other service.
pub fn write_cloud_local_status(out: &mut String, status: &CloudLocalStatus)
    ensures
        final(out)@ == old(out)@ + database_status_line(match &status.database_containers {
            Some(names) => Some(names@.map_values(|s: String| s@)),
            None => None,
        }) + status_lines(status.services@),
{
    match &status.database_containers {
        Some(containers) => {
            let mut line: Vec<char> = chars_of("db: Running (");
            append_joined(&mut line, containers, ", ");
            append_str(&mut line, ")\n");
            let text = string_of(&line);
            emit(out, text.as_str());
        },
        None => emit(out, "db: Stopped\n"),
    }
    let ghost mid = out@;
    write_status_lines(out, &status.services);
    assert(out@ =~= old(out)@ + database_status_line(match &status.database_containers {
        Some(names) => Some(names@.map_values(|s: String| s@)),
        None => None,
    }) + status_lines(status.services@));
}

/// Appends the manager metadata verbatim.
pub fn write_manager_info(out: &mut String, info: &ManagerInfo)
    ensures
        final(out)@ == old(out)@ + info.metadata@,
{
    emit(out, info.metadata.as_str());
}

/// Appends the status line of the manager service.
pub fn write_manager_status(out: &mut String, status: &ManagerStatus)
    ensures
        final(out)@ == old(out)@ + process_status_line(status.service.name@, status.service.pid),
{
    write_process_status(out, &status.service);
}

/// The usage text of a `versions` command.
pub open spec fn versions_usage_text(kind: VersionsKind) -> Seq<char> {
    match kind {
        VersionsKind::Backend => "Usage:\n  oqtopus backend versions <engine|tranqu|gateway>\n"@,
        VersionsKind::CloudLocal => "Usage:\n  oqtopus cloud-local versions <cloud|frontend|admin>\n"@,
        VersionsKind::Manager => "Usage:\n  oqtopus manager versions\n"@,
    }
}

/// The annotation after a listed version.
///
/// A tag is listed because it is advertised remotely, installed locally, or bound in metadata,
/// so the annotation names whichever of those is worth pointing out. "not in remote tags" warns
/// that a local version has no counterpart upstream; it is suppressed for branch checkouts, which
/// are never expected to be tags.
pub open spec fn version_annotation(tag: Seq<char>, installed: bool, remote: bool) -> Seq<char> {
    if installed && !remote && !(tag.len() >= 7 && tag.take(7) == "branch:"@) {
        " (installed, not in remote tags)"@
    } else if installed {
        " (installed)"@
    } else if !remote {
        " (not in remote tags)"@
    } else {
        seq![]
    }
}

/// The line of one listed version: `* ` marks the bound version.
pub open spec fn version_line(entry: VersionEntry) -> Seq<char> {
    (if entry.current {
        "* "@
    } else {
        "  "@
    }) + entry.tag@ + version_annotation(entry.tag@, entry.installed, entry.remote) + "\n"@
}

/// The lines of the listed versions, in order.
pub open spec fn version_lines(entries: Seq<VersionEntry>) -> Seq<char>
    decreases entries.len(),
{
    if entries.len() == 0 {
        seq![]
    } else {
        version_lines(entries.drop_last()) + version_line(entries.last())
    }
}

/// The text a `versions` command renders.
pub open spec fn versions_text(output: VersionsOutput) -> Seq<char> {
    match output {
        VersionsOutput::Usage(kind) => versions_usage_text(kind),
        VersionsOutput::List(list) => list.component@ + ":\n"@ + version_lines(list.entries@),
    }
}

fn write_version_line(out: &mut String, entry: &VersionEntry)
    ensures
        final(out)@ == old(out)@ + version_line(*entry),
{
    if entry.current {
        emit(out, "* ");
    } else {
        emit(out, "  ");
    }
    emit(out, entry.tag.as_str());
    proof {
        reveal_strlit("branch:");
    }
    let branch = str_starts_with(entry.tag.as_str(), "branch:");
    if entry.installed && !entry.remote && !branch {
        emit(out, " (installed, not in remote tags)");
    } else if entry.installed {
        emit(out, " (installed)");
    } else if !entry.remote {
        emit(out, " (not in remote tags)");
    } else {
        assert(version_annotation(entry.tag@, entry.installed, entry.remote) =~= seq![]);
    }
    emit(out, "\n");
    assert(final(out)@ =~= old(out)@ + version_line(*entry));
}

/// Appends the result of a `versions` command: its usage text, or the component followed by one
/// line per listed version.
pub fn write_versions(out: &mut String, result: &VersionsOutcome)
    ensures
        final(out)@ == old(out)@ + versions_text(result.output),
{
    match &result.output {
        VersionsOutput::Usage(VersionsKind::Backend) => emit(out, "Usage:\n  oqtopus backend versions <engine|tranqu|gateway>\n"),
        VersionsOutput::Usage(VersionsKind::CloudLocal) => emit(out, "Usage:\n  oqtopus cloud-local versions <cloud|frontend|admin>\n"),
        VersionsOutput::Usage(VersionsKind::Manager) => emit(out, "Usage:\n  oqtopus manager versions\n"),
        VersionsOutput::List(list) => {
            emit(out, list.component.as_str());
            emit(out, ":\n");
            let ghost start = out@;
            let mut i: usize = 0;
            while i < list.entries.len()
                invariant
                    i <= list.entries@.len(),
                    out@ == start + version_lines(list.entries@.take(i as int)),
                decreases list.entries@.len() - i,
            {
                write_version_line(out, &list.entries[i]);
                assert(list.entries@.take(i + 1).drop_last() =~= list.entries@.take(i as int));
                assert(list.entries@.take(i + 1).last() == list.entries@[i as int]);
                i = i + 1;
            }
            assert(list.entries@.take(list.entries@.len() as int) =~= list.entries@);
            assert(out@ =~= old(out)@ + versions_text(result.output));
        },
    }
}

/// Appends an operation's final output, which exists only when the operation refused to run.
///
/// A successful install, build, uninstall, or update has already streamed its progress, so there
/// is nothing left to render.
pub fn write_operation(out: &mut String, result: &OperationOutcome)
    ensures
        final(out)@ == old(out)@ + match result.usage {
            Some(kind) => operation_usage_text(kind),
            None => seq![],
        },
{
    if let Some(kind) = result.usage {
        emit(out, operation_usage(kind));
    } else {
        assert(old(out)@ =~= old(out)@ + Seq::<char>::empty());
    }
}

/// Appends a lifecycle command's final output: its usage text, if it refused to run.
pub fn write_lifecycle(out: &mut String, result: &LifecycleOutcome)
    ensures
        final(out)@ == old(out)@ + match result.output {
            LifecycleOutput::Usage(kind) => lifecycle_usage_text(kind),
            LifecycleOutput::Nothing => seq![],
        },
{
    if let LifecycleOutput::Usage(kind) = result.output {
        emit(out, lifecycle_usage(kind));
    } else {
        assert(old(out)@ =~= old(out)@ + Seq::<char>::empty());
    }
}

/// The usage text of a lifecycle command.
pub open spec fn lifecycle_usage_text(kind: LifecycleKind) -> Seq<char> {
    match kind {
        LifecycleKind::BackendStart => "Usage:\n  oqtopus backend start <core|sse_engine|mitigator|estimator|combiner|tranqu|gateway|all>\n  oqtopus backend start <core|sse_engine|mitigator|estimator|combiner|tranqu|gateway> --foreground\n"@,
        LifecycleKind::BackendStop => "Usage:\n  oqtopus backend stop <core|sse_engine|mitigator|estimator|combiner|tranqu|gateway|all>\n"@,
        LifecycleKind::BackendRestart => "Usage:\n  oqtopus backend restart <core|sse_engine|mitigator|estimator|combiner|tranqu|gateway|all>\n"@,
        LifecycleKind::CloudLocalStart => "Usage:\n  oqtopus cloud-local start <db|user|provider|admin|user_signup|worker|all>\n  oqtopus cloud-local start <db|user|provider|admin|user_signup|worker> --foreground\n"@,
        LifecycleKind::CloudLocalStop => "Usage:\n  oqtopus cloud-local stop <db|user|provider|admin|user_signup|worker|all>\n"@,
        LifecycleKind::CloudLocalRestart => "Usage:\n  oqtopus cloud-local restart <db|user|provider|admin|user_signup|worker|all>\n"@,
        LifecycleKind::ManagerStart => "Usage:\n  oqtopus manager start\n  oqtopus manager start --foreground\n"@,
        LifecycleKind::ManagerStop => "Usage:\n  oqtopus manager stop\n"@,
        LifecycleKind::ManagerRestart => "Usage:\n  oqtopus manager restart\n"@,
    }
}

/// The usage text of a lifecycle command.
pub fn lifecycle_usage(kind: LifecycleKind) -> (r: &'static str)
    ensures
        r@ == lifecycle_usage_text(kind),
{
    match kind {
        LifecycleKind::BackendStart => "Usage:\n  oqtopus backend start <core|sse_engine|mitigator|estimator|combiner|tranqu|gateway|all>\n  oqtopus backend start <core|sse_engine|mitigator|estimator|combiner|tranqu|gateway> --foreground\n",
        LifecycleKind::BackendStop => "Usage:\n  oqtopus backend stop <core|sse_engine|mitigator|estimator|combiner|tranqu|gateway|all>\n",
        LifecycleKind::BackendRestart => "Usage:\n  oqtopus backend restart <core|sse_engine|mitigator|estimator|combiner|tranqu|gateway|all>\n",
        LifecycleKind::CloudLocalStart => "Usage:\n  oqtopus cloud-local start <db|user|provider|admin|user_signup|worker|all>\n  oqtopus cloud-local start <db|user|provider|admin|user_signup|worker> --foreground\n",
        LifecycleKind::CloudLocalStop => "Usage:\n  oqtopus cloud-local stop <db|user|provider|admin|user_signup|worker|all>\n",
        LifecycleKind::CloudLocalRestart => "Usage:\n  oqtopus cloud-local restart <db|user|provider|admin|user_signup|worker|all>\n",
        LifecycleKind::ManagerStart => "Usage:\n  oqtopus manager start\n  oqtopus manager start --foreground\n",
        LifecycleKind::ManagerStop => "Usage:\n  oqtopus manager stop\n",
        LifecycleKind::ManagerRestart => "Usage:\n  oqtopus manager restart\n",
    }
}

/// The usage text of an operation command.
pub open spec fn operation_usage_text(kind: OperationKind) -> Seq<char> {
    match kind {
        OperationKind::BackendInstall => "Usage:\n  oqtopus backend install <engine|tranqu|gateway> [version|branch:<branch>] [--skip-sse-build]\n  oqtopus backend install all [--skip-sse-build]\n"@,
        OperationKind::BackendBuild => "Usage:\n  oqtopus backend build sse-runtime\n"@,
        OperationKind::BackendUninstall => "Usage:\n  oqtopus backend uninstall <engine|tranqu|gateway> <version>\n  oqtopus backend uninstall <engine|tranqu|gateway> branch:<branch>\n"@,
        OperationKind::BackendUpdate => "Usage:\n  oqtopus backend update <engine|tranqu|gateway>\n"@,
        OperationKind::CloudLocalInstall => "Usage:\n  oqtopus cloud-local install <cloud|frontend|admin> [version|branch:<branch>]\n  oqtopus cloud-local install all\n"@,
        OperationKind::CloudLocalUninstall => "Usage:\n  oqtopus cloud-local uninstall <cloud|frontend|admin> <version>\n  oqtopus cloud-local uninstall <cloud|frontend|admin> branch:<branch>\n"@,
        OperationKind::CloudLocalUpdate => "Usage:\n  oqtopus cloud-local update <cloud|frontend|admin>\n"@,
        OperationKind::ManagerInstall => "Usage:\n  oqtopus manager install [version|branch:<branch>]\n"@,
        OperationKind::ManagerUninstall => "Usage:\n  oqtopus manager uninstall <version|branch:<branch>>\n"@,
        OperationKind::ManagerUpdate => "Usage:\n  oqtopus manager update\n"@,
    }
}

/// The usage text of an operation command.
pub fn operation_usage(kind: OperationKind) -> (r: &'static str)
    ensures
        r@ == operation_usage_text(kind),
{
    match kind {
        OperationKind::BackendInstall => "Usage:\n  oqtopus backend install <engine|tranqu|gateway> [version|branch:<branch>] [--skip-sse-build]\n  oqtopus backend install all [--skip-sse-build]\n",
        OperationKind::BackendBuild => "Usage:\n  oqtopus backend build sse-runtime\n",
        OperationKind::BackendUninstall => "Usage:\n  oqtopus backend uninstall <engine|tranqu|gateway> <version>\n  oqtopus backend uninstall <engine|tranqu|gateway> branch:<branch>\n",
        OperationKind::BackendUpdate => "Usage:\n  oqtopus backend update <engine|tranqu|gateway>\n",
        OperationKind::CloudLocalInstall => "Usage:\n  oqtopus cloud-local install <cloud|frontend|admin> [version|branch:<branch>]\n  oqtopus cloud-local install all\n",
        OperationKind::CloudLocalUninstall => "Usage:\n  oqtopus cloud-local uninstall <cloud|frontend|admin> <version>\n  oqtopus cloud-local uninstall <cloud|frontend|admin> branch:<branch>\n",
        OperationKind::CloudLocalUpdate => "Usage:\n  oqtopus cloud-local update <cloud|frontend|admin>\n",
        OperationKind::ManagerInstall => "Usage:\n  oqtopus manager install [version|branch:<branch>]\n",
        OperationKind::ManagerUninstall => "Usage:\n  oqtopus manager uninstall <version|branch:<branch>>\n",
        OperationKind::ManagerUpdate => "Usage:\n  oqtopus manager update\n",
    }
}

/// The text the `completion` command renders.
pub open spec fn completion_text(output: CompletionOutput) -> Seq<char> {
    match output {
        CompletionOutput::Usage => COMPLETION_USAGE@,
        CompletionOutput::Script(script) => script@,
    }
}

/// Appends the result of `completion`: its usage text or a completion script.
pub fn write_completion(out: &mut String, result: &CompletionOutcome)
    ensures
        final(out)@ == old(out)@ + completion_text(result.output),
{
    match result.output {
        CompletionOutput::Usage => emit(out, COMPLETION_USAGE),
        CompletionOutput::Script(script) => emit(out, script),
    }
}

/// Appends `Error: <message>` and a line feed.
pub fn write_error(out: &mut String, message: &str)
    ensures
        final(out)@ == old(out)@ + "Error: "@ + message@ + "\n"@,
{
    emit(out, "Error: ");
    emit(out, message);
    emit(out, "\n");
}

} // verus!
