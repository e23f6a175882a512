//! Manager component operation commands.

use vstd::prelude::*;
use crate::args::{asks_help, is_help};
use crate::environment::Environment;
use crate::operations::{
    install_options, install_options_from, install_request, is_usage_operation, usage,
    version_request, InstallRequest, OperationKind, OperationPlan, VersionRequest,
};
use super::components::{manager_component, manager_component_view};

verus! {

/// Decides `manager install [version]`. The manager is a single component, so the first
/// positional argument is already the version.
pub fn manager_install(args: &Vec<String>, environment: Result<Environment, String>) -> (r: Result<OperationPlan, String>)
    ensures
        asks_help(args@) ==> (r matches Ok(p) && is_usage_operation(p, OperationKind::ManagerInstall, 0)),
        !asks_help(args@) && environment is Err ==> (r matches Err(m) && m@ == environment->Err_0@),
        !asks_help(args@) && environment is Ok ==> match install_options(args@, false) {
            Err(None) => r matches Ok(p) && is_usage_operation(p, OperationKind::ManagerInstall, 1),
            Err(Some(m)) => r matches Err(e) && e@ == m,
            Ok((version, _)) => match version_request(Some(version)) {
                Err(m) => r matches Err(e) && e@ == m,
                Ok(q) => r matches Ok(OperationPlan::Install(reqs)) && reqs@.len() == 1
                    && reqs@[0]@ == (manager_component_view(), q, false),
            },
        },
{
    if is_help(args) {
        return Ok(OperationPlan::Done(usage(OperationKind::ManagerInstall, 0)));
    }
    if let Err(e) = environment {
        return Err(e);
    }
    assert(args@.skip(0) =~= args@);
    let (version, _) = match install_options_from(args, 0, false) {
        Ok(parsed) => parsed,
        Err(None) => return Ok(OperationPlan::Done(usage(OperationKind::ManagerInstall, 1))),
        Err(Some(m)) => return Err(m),
    };
    let req = match install_request(manager_component(), version.as_str(), false) {
        Ok(req) => req,
        Err(e) => return Err(e),
    };
    let mut reqs: Vec<InstallRequest> = Vec::new();
    reqs.push(req);
    Ok(OperationPlan::Install(reqs))
}

/// Decides `manager uninstall <version>`.
pub fn manager_uninstall(args: &Vec<String>, environment: Result<Environment, String>) -> (r: Result<OperationPlan, String>)
    ensures
        asks_help(args@) ==> (r matches Ok(p) && is_usage_operation(p, OperationKind::ManagerUninstall, 0)),
        !asks_help(args@) && environment is Err ==> (r matches Err(m) && m@ == environment->Err_0@),
        !asks_help(args@) && environment is Ok ==> if args@.len() != 1 || args@[0]@.len() == 0 {
            r matches Ok(p) && is_usage_operation(p, OperationKind::ManagerUninstall, 1)
        } else {
            r matches Ok(OperationPlan::Uninstall(c, v)) && c@ == manager_component_view() && v@ == args@[0]@
        },
{
    if is_help(args) {
        return Ok(OperationPlan::Done(usage(OperationKind::ManagerUninstall, 0)));
    }
    if let Err(e) = environment {
        return Err(e);
    }
    if args.len() != 1 || args[0].as_str().unicode_len() == 0 {
        return Ok(OperationPlan::Done(usage(OperationKind::ManagerUninstall, 1)));
    }
    Ok(OperationPlan::Uninstall(manager_component(), args[0].clone()))
}

/// Decides `manager update`: install the latest release.
pub fn manager_update(args: &Vec<String>, environment: Result<Environment, String>) -> (r: Result<OperationPlan, String>)
    ensures
        asks_help(args@) ==> (r matches Ok(p) && is_usage_operation(p, OperationKind::ManagerUpdate, 0)),
        !asks_help(args@) && environment is Err ==> (r matches Err(m) && m@ == environment->Err_0@),
        !asks_help(args@) && environment is Ok ==> if args@.len() > 0 {
            r matches Ok(p) && is_usage_operation(p, OperationKind::ManagerUpdate, 1)
        } else {
            r matches Ok(OperationPlan::Install(reqs)) && reqs@.len() == 1
                && reqs@[0]@ == (manager_component_view(), None::<(bool, Seq<char>)>, false)
        },
{
    if is_help(args) {
        return Ok(OperationPlan::Done(usage(OperationKind::ManagerUpdate, 0)));
    }
    if let Err(e) = environment {
        return Err(e);
    }
    if args.len() > 0 {
        return Ok(OperationPlan::Done(usage(OperationKind::ManagerUpdate, 1)));
    }
    let mut reqs: Vec<InstallRequest> = Vec::new();
    reqs.push(InstallRequest { component: manager_component(), version: VersionRequest::Latest, skip_sse_build: false });
    Ok(OperationPlan::Install(reqs))
}

} // verus!
