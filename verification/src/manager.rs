//! Native Manager commands and their result data.

use vstd::prelude::*;
use crate::backend::{pid_file, pid_file_path};
use crate::environment::Environment;
use crate::service::ServiceStatus;

pub mod components;
pub mod lifecycle;
pub mod operations;
pub mod versions;

verus! {

/// Validated metadata rendered by the `info` command.
pub struct ManagerInfo {
    pub metadata: String,
}

/// Status of the single manager service.
pub struct ManagerStatus {
    pub service: ServiceStatus,
}

/// Returns the metadata of the validated manager environment for the `info` command, which
/// accepts no arguments.
pub fn manager_info(args: &Vec<String>, environment: Result<Environment, String>) -> (r: Result<ManagerInfo, String>)
    ensures
        args@.len() > 0 ==> (r matches Err(m) && m@ == "oqtopus manager info does not accept arguments."@),
        args@.len() == 0 ==> match environment {
            Ok(e) => r matches Ok(info) && info.metadata@ == e.metadata@,
            Err(e) => r matches Err(m) && m@ == e@,
        },
{
    if args.len() > 0 {
        return Err("oqtopus manager info does not accept arguments.".to_owned());
    }
    match environment {
        Ok(e) => Ok(ManagerInfo { metadata: e.metadata }),
        Err(e) => Err(e),
    }
}

/// The PID file of the manager service.
pub fn manager_pid_file(environment: &Environment) -> (r: String)
    ensures
        r@ == pid_file(environment.root@, "manager"@),
{
    pid_file_path(environment.root.as_str(), "manager")
}

/// Returns the observed process state of the manager service, given the PID of its running
/// process (`None` when it is stopped), for the `status` command, which accepts no arguments.
pub fn manager_status(args: &Vec<String>, environment: Result<Environment, String>, pid: Option<u32>) -> (r: Result<ManagerStatus, String>)
    ensures
        args@.len() > 0 ==> (r matches Err(m) && m@ == "oqtopus manager status does not accept arguments."@),
        args@.len() == 0 ==> match environment {
            Err(e) => r matches Err(m) && m@ == e@,
            Ok(_) => r matches Ok(status) && status.service.name@ == "manager"@ && status.service.pid == pid,
        },
{
    if args.len() > 0 {
        return Err("oqtopus manager status does not accept arguments.".to_owned());
    }
    match environment {
        Ok(_) => Ok(ManagerStatus { service: ServiceStatus { name: "manager".to_owned(), pid } }),
        Err(e) => Err(e),
    }
}

} // verus!
