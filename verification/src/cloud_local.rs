//! Native cloud-local commands and their result data.

use vstd::prelude::*;
use crate::service::ServiceStatus;

verus! {

/// Validated metadata rendered by the `info` command.
pub struct CloudLocalInfo {
    pub metadata: String,
}

/// Status of the database containers and of every PID-managed cloud-local service.
pub struct CloudLocalStatus {
    /// Names of the database containers when the database runs, `None` when it is stopped.
    pub database_containers: Option<Vec<String>>,
    pub services: Vec<ServiceStatus>,
}

} // verus!

pub mod components;
pub mod lifecycle;
pub mod operations;
pub mod versions;
pub mod database;

use crate::args::{asks_help, is_help};
use crate::backend::pid_file;
use crate::chars::{chars_of, slice_vec, str_eq, string_of};
use crate::environment::NamedEnvironment;
use crate::lines::{line_text, lines, segments, segments_of, views};
use crate::metadata::{metadata_get, metadata_value};
use crate::operations::{component_dir, component_directory};
use crate::paths::{join_path, joined};

verus! {

/// Every cloud-local service, in the order the Manager consumes. Startup follows this order;
/// shutdown reverses it.
pub open spec fn services() -> Seq<Seq<char>> {
    seq!["db"@, "worker"@, "user_signup"@, "admin"@, "provider"@, "user"@]
}

/// The cloud-local services.
pub fn service_names() -> (r: Vec<&'static str>)
    ensures
        r@.map_values(|s: &str| s@) == services(),
{
    let r = vec!["db", "worker", "user_signup", "admin", "provider", "user"];
    assert(r@.map_values(|s: &str| s@) =~= services());
    r
}

/// The PID-managed services: all but the database, which runs as containers.
pub open spec fn process_services() -> Seq<Seq<char>> {
    services().skip(1)
}

/// Returns the metadata of the validated cloud-local environment for the `info` command, which
/// accepts no arguments.
pub fn cloud_local_info(args: &Vec<String>, environment: Result<NamedEnvironment, String>) -> (r: Result<CloudLocalInfo, String>)
    ensures
        args@.len() > 0 ==> (r matches Err(m) && m@ == "oqtopus cloud-local info does not accept arguments."@),
        args@.len() == 0 ==> match environment {
            Ok(e) => r matches Ok(info) && info.metadata@ == e.environment.metadata@,
            Err(e) => r matches Err(m) && m@ == e@,
        },
{
    if args.len() > 0 {
        return Err("oqtopus cloud-local info does not accept arguments.".to_owned());
    }
    match environment {
        Ok(e) => Ok(CloudLocalInfo { metadata: e.environment.metadata }),
        Err(e) => Err(e),
    }
}

/// The PID files of the PID-managed cloud-local services, in status order.
pub fn cloud_status_pid_files(environment: &NamedEnvironment) -> (r: Vec<String>)
    ensures
        r@.len() == process_services().len(),
        forall|i: int| 0 <= i < r@.len() ==> (#[trigger] r@[i])@ == pid_file(
            environment.environment.root@,
            process_services()[i],
        ),
{
    let names = service_names();
    assert(names@.map_values(|s: &str| s@).len() == 6);
    let mut r: Vec<String> = Vec::new();
    let mut i: usize = 1;
    while i < names.len()
        invariant
            1 <= i <= names@.len(),
            names@.map_values(|s: &str| s@) == services(),
            r@.len() == i - 1,
            forall|j: int| 0 <= j < i - 1 ==> (#[trigger] r@[j])@ == pid_file(
                environment.environment.root@,
                process_services()[j],
            ),
        decreases names@.len() - i,
    {
        assert(names@.map_values(|s: &str| s@)[i as int] == names@[i as int]@);
        r.push(crate::backend::pid_file_path(environment.environment.root.as_str(), names[i]));
        i = i + 1;
    }
    r
}

/// Returns the state of the database (its container names, `None` when stopped) and of each
/// PID-managed service, given the PID of each running one in status order.
pub fn cloud_local_status(
    args: &Vec<String>,
    environment: Result<NamedEnvironment, String>,
    database_containers: Option<Vec<String>>,
    pids: &Vec<Option<u32>>,
) -> (r: Result<CloudLocalStatus, String>)
    requires
        pids@.len() == process_services().len(),
    ensures
        args@.len() > 0 ==> (r matches Err(m) && m@ == "oqtopus cloud-local status does not accept arguments."@),
        args@.len() == 0 ==> match environment {
            Err(e) => r matches Err(m) && m@ == e@,
            Ok(_) => r matches Ok(status) && status.database_containers == database_containers
                && status.services@.len() == process_services().len() && forall|i: int|
                0 <= i < status.services@.len() ==> (#[trigger] status.services@[i]).name@
                    == process_services()[i] && status.services@[i].pid == pids@[i],
        },
{
    if args.len() > 0 {
        return Err("oqtopus cloud-local status does not accept arguments.".to_owned());
    }
    if let Err(e) = environment {
        return Err(e);
    }
    let names = service_names();
    assert(names@.map_values(|s: &str| s@).len() == 6);
    let mut statuses: Vec<crate::service::ServiceStatus> = Vec::new();
    let mut i: usize = 1;
    while i < names.len()
        invariant
            1 <= i <= names@.len(),
            names@.map_values(|s: &str| s@) == services(),
            pids@.len() == names@.len() - 1,
            statuses@.len() == i - 1,
            forall|j: int|
                0 <= j < i - 1 ==> (#[trigger] statuses@[j]).name@ == process_services()[j]
                    && statuses@[j].pid == pids@[j],
        decreases names@.len() - i,
    {
        assert(names@.map_values(|s: &str| s@)[i as int] == names@[i as int]@);
        statuses.push(crate::service::ServiceStatus { name: names[i].to_owned(), pid: pids[i - 1] });
        i = i + 1;
    }
    Ok(CloudLocalStatus { database_containers, services: statuses })
}

/// Where the installed cloud component lives, per the environment's binding.
///
/// A `branch:` binding marks a checkout kept inside the environment; every other binding names
/// a release in the shared install root. Install, uninstall, and build apply the same rule.
pub open spec fn cloud_dir(environment: (Seq<char>, Seq<char>, Seq<char>)) -> Option<Seq<char>> {
    match metadata_value(environment.2, "cloud_local_cloud_version"@) {
        Some(version) => Some(component_dir(environment.0, environment.1, "cloud"@, version)),
        None => None,
    }
}

/// Locates the installed cloud component, if one is bound.
pub fn cloud_directory(environment: &crate::environment::Environment) -> (r: Option<String>)
    ensures
        match r {
            Some(d) => cloud_dir(environment@) == Some(d@),
            None => cloud_dir(environment@) is None,
        },
{
    match metadata_get(environment.metadata.as_str(), "cloud_local_cloud_version") {
        Some(version) => Some(component_directory(environment, "cloud", version.as_str())),
        None => None,
    }
}

/// The Docker Compose file that defines the database containers.
pub fn database_compose_file(environment: &NamedEnvironment) -> (r: Option<String>)
    ensures
        match r {
            Some(f) => cloud_dir(environment.environment@) matches Some(d) && f@ == joined(
                d,
                "backend/compose.yaml"@,
            ),
            None => cloud_dir(environment.environment@) is None,
        },
{
    match cloud_directory(&environment.environment) {
        Some(cloud) => Some(join_path(cloud.as_str(), "backend/compose.yaml")),
        None => None,
    }
}

/// The database containers to report: when the compose file exists and the database runs, the
/// names found for the `db`, `minio`, and `mc` services, in that order; otherwise none.
pub fn database_containers(compose_exists: bool, running: bool, names: Vec<Option<String>>) -> (r: Option<Vec<String>>)
    ensures
        !(compose_exists && running) ==> r is None,
        compose_exists && running ==> (r matches Some(found) && found@ == names@.filter_map(
            |n: Option<String>| n,
        )),
{
    if !(compose_exists && running) {
        return None;
    }
    let mut found: Vec<String> = Vec::new();
    let mut i: usize = 0;
    while i < names.len()
        invariant
            i <= names@.len(),
            found@ == names@.take(i as int).filter_map(|n: Option<String>| n),
        decreases names@.len() - i,
    {
        let ghost before = found@;
        assert(names@.take(i + 1).drop_last() =~= names@.take(i as int));
        assert(names@.take(i + 1).last() == names@[i as int]);
        match &names[i] {
            Some(n) => found.push(n.clone()),
            None => {},
        }
        i = i + 1;
    }
    assert(names@.take(names@.len() as int) =~= names@);
    Some(found)
}

/// The container a `docker ps` listing names: its first line, when there is a non-empty one.
pub open spec fn listed_container(stdout: Seq<char>) -> Option<Seq<char>> {
    if lines(stdout).len() > 0 && lines(stdout)[0].len() > 0 {
        Some(lines(stdout)[0])
    } else {
        None
    }
}

/// Reads the container name from `docker ps` output. Compose derives container names from the
/// project and service names, so output that does not decode names no container.
pub fn container_name(stdout: &str) -> (r: Option<String>)
    ensures
        match r {
            Some(n) => listed_container(stdout@) == Some(n@),
            None => listed_container(stdout@) is None,
        },
{
    let text = chars_of(stdout);
    let segs = segments_of(&text);
    if segs.len() == 0 {
        return None;
    }
    let first = &segs[0];
    assert(views(segs@)[0] == first@);
    let name = crate::metadata::metadata_line_text_of(first);
    if name.len() == 0 {
        None
    } else {
        Some(string_of(&name))
    }
}

/// Whether `docker compose ps --quiet` output shows a running database: the command succeeded
/// and printed at least one byte other than a line terminator.
pub fn database_output_running(success: bool, stdout: &Vec<u8>) -> (r: bool)
    ensures
        r == (success && exists|i: int| 0 <= i < stdout@.len() && #[trigger] stdout@[i] != 10u8),
{
    if !success {
        return false;
    }
    let mut i: usize = 0;
    while i < stdout.len()
        invariant
            i <= stdout@.len(),
            success,
            forall|j: int| 0 <= j < i ==> stdout@[j] == 10u8,
        decreases stdout@.len() - i,
    {
        if stdout[i] != 10u8 {
            assert(stdout@[i as int] != 10u8);
            return true;
        }
        i = i + 1;
    }
    false
}

} // verus!
