//! Cloud-local component operation commands.

use vstd::prelude::*;
use crate::args::{asks_help, is_help};
use crate::chars::str_eq;
use crate::environment::NamedEnvironment;
use crate::operations::{
    find_component, first_named_view, install_all_latest, install_options, install_options_from,
    install_request, is_usage_operation, lemma_first_named_view, usage, version_request,
    InstallRequest, OperationKind, OperationPlan, VersionRequest,
};
use super::components::{cloud_local_component_views, cloud_local_components};

verus! {

/// Decides `cloud-local install`: one component at an optional version or branch, or `all` at
/// their latest releases.
pub fn cloud_local_install(args: &Vec<String>, environment: Result<NamedEnvironment, String>) -> (r: Result<OperationPlan, String>)
    ensures
        asks_help(args@) ==> (r matches Ok(p) && is_usage_operation(p, OperationKind::CloudLocalInstall, 0)),
        !asks_help(args@) && environment is Err ==> (r matches Err(m) && m@ == environment->Err_0@),
        !asks_help(args@) && environment is Ok && (args@.len() == 0 || args@[0]@.len() == 0) ==> (r matches Ok(p)
            && is_usage_operation(p, OperationKind::CloudLocalInstall, 1)),
        !asks_help(args@) && environment is Ok && args@.len() > 0 && args@[0]@.len() > 0 ==> match install_options(
            args@.skip(1),
            false,
        ) {
            Err(None) => r matches Ok(p) && is_usage_operation(p, OperationKind::CloudLocalInstall, 1),
            Err(Some(m)) => r matches Err(e) && e@ == m,
            Ok((version, _)) => if args@[0]@ == "all"@ {
                if version.len() > 0 {
                    r matches Err(e) && e@ == "oqtopus cloud-local install all does not accept a version argument."@
                } else {
                    r matches Ok(OperationPlan::Install(reqs)) && reqs@.len() == 3 && forall|i: int|
                        0 <= i < 3 ==> (#[trigger] reqs@[i])@ == (
                            cloud_local_component_views()[i],
                            None::<(bool, Seq<char>)>,
                            false,
                        )
                }
            } else {
                match first_named_view(cloud_local_component_views(), args@[0]@) {
                    None => r matches Err(e) && e@ == "unknown component: "@ + args@[0]@,
                    Some(c) => match version_request(Some(version)) {
                        Err(m) => r matches Err(e) && e@ == m,
                        Ok(q) => r matches Ok(OperationPlan::Install(reqs)) && reqs@.len() == 1
                            && reqs@[0]@ == (c, q, false),
                    },
                }
            },
        },
{
    if is_help(args) {
        return Ok(OperationPlan::Done(usage(OperationKind::CloudLocalInstall, 0)));
    }
    if let Err(e) = environment {
        return Err(e);
    }
    if args.len() == 0 || args[0].as_str().unicode_len() == 0 {
        return Ok(OperationPlan::Done(usage(OperationKind::CloudLocalInstall, 1)));
    }
    let (version, _) = match install_options_from(args, 1, false) {
        Ok(parsed) => parsed,
        Err(None) => return Ok(OperationPlan::Done(usage(OperationKind::CloudLocalInstall, 1))),
        Err(Some(m)) => return Err(m),
    };
    let name = args[0].as_str();
    let components = cloud_local_components();
    if str_eq(name, "all") {
        if version.as_str().unicode_len() > 0 {
            return Err("oqtopus cloud-local install all does not accept a version argument.".to_owned());
        }
        return Ok(OperationPlan::Install(install_all_latest(&components, false)));
    }
    proof {
        lemma_first_named_view(components@, name@);
    }
    let component = match find_component(components.as_slice(), name) {
        Ok(c) => c,
        Err(e) => return Err(e),
    };
    let req = match install_request(component, version.as_str(), false) {
        Ok(req) => req,
        Err(e) => return Err(e),
    };
    let mut reqs: Vec<InstallRequest> = Vec::new();
    reqs.push(req);
    Ok(OperationPlan::Install(reqs))
}

/// Decides `cloud-local uninstall <component> <version>`.
pub fn cloud_local_uninstall(args: &Vec<String>, environment: Result<NamedEnvironment, String>) -> (r: Result<OperationPlan, String>)
    ensures
        asks_help(args@) ==> (r matches Ok(p) && is_usage_operation(p, OperationKind::CloudLocalUninstall, 0)),
        !asks_help(args@) && environment is Err ==> (r matches Err(m) && m@ == environment->Err_0@),
        !asks_help(args@) && environment is Ok ==> if args@.len() != 2 || args@[0]@.len() == 0
            || args@[1]@.len() == 0 {
            r matches Ok(p) && is_usage_operation(p, OperationKind::CloudLocalUninstall, 1)
        } else {
            match first_named_view(cloud_local_component_views(), args@[0]@) {
                None => r matches Err(e) && e@ == "unknown component: "@ + args@[0]@,
                Some(c) => r matches Ok(OperationPlan::Uninstall(rc, v)) && rc@ == c && v@
                    == args@[1]@,
            }
        },
{
    if is_help(args) {
        return Ok(OperationPlan::Done(usage(OperationKind::CloudLocalUninstall, 0)));
    }
    if let Err(e) = environment {
        return Err(e);
    }
    if args.len() != 2 || args[0].as_str().unicode_len() == 0 || args[1].as_str().unicode_len() == 0 {
        return Ok(OperationPlan::Done(usage(OperationKind::CloudLocalUninstall, 1)));
    }
    let components = cloud_local_components();
    proof {
        lemma_first_named_view(components@, args@[0]@);
    }
    let component = match find_component(components.as_slice(), args[0].as_str()) {
        Ok(c) => c,
        Err(e) => return Err(e),
    };
    Ok(OperationPlan::Uninstall(component, args[1].clone()))
}

/// Decides `cloud-local update <component>`: install its latest release.
pub fn cloud_local_update(args: &Vec<String>, environment: Result<NamedEnvironment, String>) -> (r: Result<OperationPlan, String>)
    ensures
        asks_help(args@) ==> (r matches Ok(p) && is_usage_operation(p, OperationKind::CloudLocalUpdate, 0)),
        !asks_help(args@) && environment is Err ==> (r matches Err(m) && m@ == environment->Err_0@),
        !asks_help(args@) && environment is Ok ==> if args@.len() != 1 || args@[0]@.len() == 0 {
            r matches Ok(p) && is_usage_operation(p, OperationKind::CloudLocalUpdate, 1)
        } else {
            match first_named_view(cloud_local_component_views(), args@[0]@) {
                None => r matches Err(e) && e@ == "unknown component: "@ + args@[0]@,
                Some(c) => r matches Ok(OperationPlan::Install(reqs)) && reqs@.len() == 1
                    && reqs@[0]@ == (c, None::<(bool, Seq<char>)>, false),
            }
        },
{
    if is_help(args) {
        return Ok(OperationPlan::Done(usage(OperationKind::CloudLocalUpdate, 0)));
    }
    if let Err(e) = environment {
        return Err(e);
    }
    if args.len() != 1 || args[0].as_str().unicode_len() == 0 {
        return Ok(OperationPlan::Done(usage(OperationKind::CloudLocalUpdate, 1)));
    }
    let components = cloud_local_components();
    proof {
        lemma_first_named_view(components@, args@[0]@);
    }
    let component = match find_component(components.as_slice(), args[0].as_str()) {
        Ok(c) => c,
        Err(e) => return Err(e),
    };
    let mut reqs: Vec<InstallRequest> = Vec::new();
    reqs.push(InstallRequest { component, version: VersionRequest::Latest, skip_sse_build: false });
    Ok(OperationPlan::Install(reqs))
}

} // verus!
