//! Native backend commands and their result data.

pub mod lifecycle;
pub mod operations;
pub mod services;
pub mod versions;

use vstd::prelude::*;
use crate::args::{asks_help, is_help};
use crate::chars::str_eq;
use crate::environment::Environment;
use crate::paths::{join_path, joined};
use crate::service::ServiceStatus;
use services::{service_name, status_order, status_order_services};

verus! {

/// Validated metadata rendered by the `info` command.
pub struct BackendInfo {
    pub metadata: String,
}

/// Status of every backend service in the order consumed by the Manager.
pub struct BackendStatus {
    pub services: Vec<ServiceStatus>,
}

/// Result of the `device-status` command.
pub enum BackendDeviceStatus {
    Help,
    Invalid,
    Show(String),
    Updated(&'static str),
}

impl BackendDeviceStatus {
    /// Exit status for this outcome. An unusable action prints usage and fails.
    pub fn exit_code(&self) -> (r: i32)
        ensures
            r == (if self is Invalid {
                1i32
            } else {
                0i32
            }),
    {
        match self {
            BackendDeviceStatus::Invalid => 1,
            BackendDeviceStatus::Help | BackendDeviceStatus::Show(_) | BackendDeviceStatus::Updated(
                _,
            ) => 0,
        }
    }
}

/// Returns the metadata of the validated backend environment for the `info` command, which
/// accepts no arguments.
pub fn backend_info(args: &Vec<String>, environment: Result<Environment, String>) -> (r: Result<
    BackendInfo,
    String,
>)
    ensures
        args@.len() > 0 ==> (r matches Err(m) && m@ == "oqtopus backend info does not accept arguments."@),
        args@.len() == 0 ==> match environment {
            Ok(e) => r matches Ok(info) && info.metadata@ == e.metadata@,
            Err(e) => r matches Err(m) && m@ == e@,
        },
{
    if args.len() > 0 {
        return Err("oqtopus backend info does not accept arguments.".to_owned());
    }
    match environment {
        Ok(e) => Ok(BackendInfo { metadata: e.metadata }),
        Err(e) => Err(e),
    }
}

/// The PID file of a service.
pub open spec fn pid_file(root: Seq<char>, name: Seq<char>) -> Seq<char> {
    joined(joined(root, "pids"@), name + ".pid"@)
}

/// Locates the PID file of the service `name` in the environment at `root`.
pub fn pid_file_path(root: &str, name: &str) -> (r: String)
    ensures
        r@ == pid_file(root@, name@),
{
    let pids = join_path(root, "pids");
    let mut file = name.to_owned();
    file.append(".pid");
    join_path(pids.as_str(), file.as_str())
}

/// The PID files of the backend services, in status order.
pub fn backend_status_pid_files(environment: &Environment) -> (r: Vec<String>)
    ensures
        r@.len() == status_order().len(),
        forall|i: int| 0 <= i < r@.len() ==> (#[trigger] r@[i])@ == pid_file(
            environment.root@,
            service_name(status_order()[i]),
        ),
{
    let order = status_order_services();
    let mut r: Vec<String> = Vec::new();
    let mut i: usize = 0;
    while i < order.len()
        invariant
            i <= order@.len(),
            order@ == status_order(),
            r@.len() == i,
            forall|j: int| 0 <= j < i ==> (#[trigger] r@[j])@ == pid_file(
                environment.root@,
                service_name(status_order()[j]),
            ),
        decreases order@.len() - i,
    {
        r.push(pid_file_path(environment.root.as_str(), order[i].name()));
        i = i + 1;
    }
    r
}

/// Returns the observed process state of each managed backend service, given the PID of each
/// running service in status order (`None` for a stopped one).
pub fn backend_status(
    args: &Vec<String>,
    environment: Result<Environment, String>,
    pids: &Vec<Option<u32>>,
) -> (r: Result<BackendStatus, String>)
    requires
        pids@.len() == status_order().len(),
    ensures
        args@.len() > 0 ==> (r matches Err(m) && m@ == "oqtopus backend status does not accept arguments."@),
        args@.len() == 0 ==> match environment {
            Err(e) => r matches Err(m) && m@ == e@,
            Ok(_) => r matches Ok(status) && status.services@.len() == status_order().len()
                && forall|i: int|
                0 <= i < status.services@.len() ==> (#[trigger] status.services@[i]).name@
                    == service_name(status_order()[i]) && status.services@[i].pid == pids@[i],
        },
{
    if args.len() > 0 {
        return Err("oqtopus backend status does not accept arguments.".to_owned());
    }
    if let Err(e) = environment {
        return Err(e);
    }
    let order = status_order_services();
    let mut services: Vec<ServiceStatus> = Vec::new();
    let mut i: usize = 0;
    while i < order.len()
        invariant
            i <= order@.len(),
            order@ == status_order(),
            pids@.len() == order@.len(),
            services@.len() == i,
            forall|j: int|
                0 <= j < i ==> (#[trigger] services@[j]).name@ == service_name(status_order()[j])
                    && services@[j].pid == pids@[j],
        decreases order@.len() - i,
    {
        services.push(ServiceStatus { name: order[i].name().to_owned(), pid: pids[i] });
        i = i + 1;
    }
    Ok(BackendStatus { services })
}

/// The gateway's device status file.
pub open spec fn device_status_file(root: Seq<char>) -> Seq<char> {
    joined(root, "config/gateway/device_status"@)
}

/// Locates the gateway's device status file.
pub fn device_status_path(environment: &Environment) -> (r: String)
    ensures
        r@ == device_status_file(environment.root@),
{
    join_path(environment.root.as_str(), "config/gateway/device_status")
}

/// What the `device-status` command does.
pub enum DeviceStatusPlan {
    /// Nothing left to do but render this result.
    Done(BackendDeviceStatus),
    /// Read the status file and show it.
    Show(String),
    /// Write `status` followed by a line feed to the status file, then report it.
    Update(String, &'static str),
}

/// The status a `device-status` action sets.
pub open spec fn device_status_action(action: Seq<char>) -> Option<Seq<char>> {
    if action == "active"@ {
        Some("active"@)
    } else if action == "inactive"@ {
        Some("inactive"@)
    } else if action == "maintenance"@ {
        Some("maintenance"@)
    } else {
        None
    }
}

/// Decides the `device-status` command: a usage request needs no environment; otherwise the
/// validated environment's status file must exist (`file_exists`), and the action selects
/// showing or setting it. Any other action prints usage and fails.
pub fn backend_device_status(
    args: &Vec<String>,
    environment: Result<Environment, String>,
    file_exists: bool,
) -> (r: Result<DeviceStatusPlan, String>)
    ensures
        asks_help(args@) ==> r matches Ok(DeviceStatusPlan::Done(BackendDeviceStatus::Help)),
        !asks_help(args@) ==> match environment {
            Err(e) => r matches Err(m) && m@ == e@,
            Ok(env) => {
                let path = device_status_file(env.root@);
                if !file_exists {
                    r matches Err(m) && m@ == "device status file not found: "@ + path
                } else if args@.len() > 0 && args@[0]@ == "show"@ {
                    r matches Ok(DeviceStatusPlan::Show(p)) && p@ == path
                } else if args@.len() > 0 && device_status_action(args@[0]@) is Some {
                    r matches Ok(DeviceStatusPlan::Update(p, s)) && p@ == path && s@
                        == device_status_action(args@[0]@)->Some_0
                } else {
                    r matches Ok(DeviceStatusPlan::Done(BackendDeviceStatus::Invalid))
                }
            },
        },
{
    if is_help(args) {
        return Ok(DeviceStatusPlan::Done(BackendDeviceStatus::Help));
    }
    let environment = match environment {
        Err(e) => return Err(e),
        Ok(e) => e,
    };
    let path = device_status_path(&environment);
    if !file_exists {
        let mut m = "device status file not found: ".to_owned();
        m.append(path.as_str());
        return Err(m);
    }
    if args.len() == 0 {
        return Ok(DeviceStatusPlan::Done(BackendDeviceStatus::Invalid));
    }
    let action = args[0].as_str();
    if str_eq(action, "show") {
        Ok(DeviceStatusPlan::Show(path))
    } else if str_eq(action, "active") {
        Ok(DeviceStatusPlan::Update(path, "active"))
    } else if str_eq(action, "inactive") {
        Ok(DeviceStatusPlan::Update(path, "inactive"))
    } else if str_eq(action, "maintenance") {
        Ok(DeviceStatusPlan::Update(path, "maintenance"))
    } else {
        Ok(DeviceStatusPlan::Done(BackendDeviceStatus::Invalid))
    }
}

} // verus!
