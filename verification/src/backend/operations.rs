//! Backend component declarations and operation commands.

use vstd::prelude::*;
use crate::args::{asks_help, is_help};
use crate::chars::str_eq;
use crate::environment::Environment;
use crate::metadata::{metadata_get, metadata_value};
use crate::operations::{
    component_dir, component_directory, component_views, find_component, first_named_view, lemma_first_named_view,
    install_all_latest, install_options, install_options_from, install_request, is_usage_operation,
    usage, version_request, Component, ComponentKind, InstallRequest, OperationKind,
    OperationPlan,
};

verus! {

/// The backend components: `(name, repository, binding key, kind)`.
pub open spec fn backend_component_views() -> Seq<(Seq<char>, Seq<char>, Seq<char>, ComponentKind)> {
    seq![
        ("engine"@, "oqtopus-team/oqtopus-engine"@, "engine_version"@, ComponentKind::Engine),
        ("tranqu"@, "oqtopus-team/tranqu-server"@, "tranqu_version"@, ComponentKind::BackendPython),
        ("gateway"@, "oqtopus-team/device-gateway"@, "gateway_version"@, ComponentKind::BackendPython),
    ]
}

/// The backend components, in installation order.
pub fn backend_components() -> (r: Vec<Component>)
    ensures
        component_views(r@) == backend_component_views(),
{
    let r = vec![
        Component {
            name: "engine",
            repository: "oqtopus-team/oqtopus-engine",
            binding_key: "engine_version",
            kind: ComponentKind::Engine,
        },
        Component {
            name: "tranqu",
            repository: "oqtopus-team/tranqu-server",
            binding_key: "tranqu_version",
            kind: ComponentKind::BackendPython,
        },
        Component {
            name: "gateway",
            repository: "oqtopus-team/device-gateway",
            binding_key: "gateway_version",
            kind: ComponentKind::BackendPython,
        },
    ];
    assert(component_views(r@) =~= backend_component_views());
    r
}

/// Decides `backend install`: one component at an optional version or branch, or `all` at their
/// latest releases, optionally without building the engine's runtime image.
pub fn backend_install(args: &Vec<String>, environment: Result<Environment, String>) -> (r: Result<
    OperationPlan,
    String,
>)
    ensures
        asks_help(args@) ==> (r matches Ok(p) && is_usage_operation(p, OperationKind::BackendInstall, 0)),
        !asks_help(args@) && environment is Err ==> (r matches Err(m) && m@ == environment->Err_0@),
        !asks_help(args@) && environment is Ok && args@.len() == 0 ==> (r matches Ok(p)
            && is_usage_operation(p, OperationKind::BackendInstall, 1)),
        !asks_help(args@) && environment is Ok && args@.len() > 0 ==> match install_options(
            args@.skip(1),
            true,
        ) {
            Err(None) => r matches Ok(p) && is_usage_operation(p, OperationKind::BackendInstall, 1),
            Err(Some(m)) => r matches Err(e) && e@ == m,
            Ok((version, skip)) => if args@[0]@ == "all"@ {
                if version.len() > 0 {
                    r matches Err(e) && e@ == "oqtopus backend install all does not accept a version argument."@
                } else {
                    r matches Ok(OperationPlan::Install(reqs)) && reqs@.len() == 3 && forall|i: int|
                        0 <= i < 3 ==> (#[trigger] reqs@[i])@ == (
                            backend_component_views()[i],
                            None::<(bool, Seq<char>)>,
                            skip,
                        )
                }
            } else if skip && args@[0]@ != "engine"@ {
                r matches Err(e) && e@ == "--skip-sse-build is only supported for 'engine' and 'all'."@
            } else {
                match first_named_view(backend_component_views(), args@[0]@) {
                    None => r matches Err(e) && e@ == "unknown component: "@ + args@[0]@,
                    Some(c) => match version_request(Some(version)) {
                        Err(m) => r matches Err(e) && e@ == m,
                        Ok(q) => r matches Ok(OperationPlan::Install(reqs)) && reqs@.len() == 1
                            && reqs@[0]@ == (c, q, skip),
                    },
                }
            },
        },
{
    if is_help(args) {
        return Ok(OperationPlan::Done(usage(OperationKind::BackendInstall, 0)));
    }
    if let Err(e) = environment {
        return Err(e);
    }
    if args.len() == 0 {
        return Ok(OperationPlan::Done(usage(OperationKind::BackendInstall, 1)));
    }
    let (version, skip) = match install_options_from(args, 1, true) {
        Ok(parsed) => parsed,
        Err(None) => return Ok(OperationPlan::Done(usage(OperationKind::BackendInstall, 1))),
        Err(Some(m)) => return Err(m),
    };
    let name = args[0].as_str();
    let components = backend_components();
    if str_eq(name, "all") {
        if version.as_str().unicode_len() > 0 {
            return Err("oqtopus backend install all does not accept a version argument.".to_owned());
        }
        let reqs = install_all_latest(&components, skip);
        return Ok(OperationPlan::Install(reqs));
    }
    if skip && !str_eq(name, "engine") {
        return Err("--skip-sse-build is only supported for 'engine' and 'all'.".to_owned());
    }
    let component = match find_component(components.as_slice(), name) {
        Ok(c) => c,
        Err(e) => {
            proof {
                lemma_first_named_view(components@, name@);
            }
            return Err(e);
        },
    };
    proof {
        lemma_first_named_view(components@, name@);
    }
    let req = match install_request(component, version.as_str(), skip) {
        Ok(req) => req,
        Err(e) => return Err(e),
    };
    let mut reqs: Vec<InstallRequest> = Vec::new();
    reqs.push(req);
    Ok(OperationPlan::Install(reqs))
}

/// Decides `backend uninstall <component> <version>`.
pub fn backend_uninstall(args: &Vec<String>, environment: Result<Environment, String>) -> (r: Result<
    OperationPlan,
    String,
>)
    ensures
        asks_help(args@) ==> (r matches Ok(p) && is_usage_operation(p, OperationKind::BackendUninstall, 0)),
        !asks_help(args@) && environment is Err ==> (r matches Err(m) && m@ == environment->Err_0@),
        !asks_help(args@) && environment is Ok ==> if args@.len() != 2 || args@[0]@.len() == 0
            || args@[1]@.len() == 0 {
            r matches Ok(p) && is_usage_operation(p, OperationKind::BackendUninstall, 1)
        } else {
            match first_named_view(backend_component_views(), args@[0]@) {
                None => r matches Err(e) && e@ == "unknown component: "@ + args@[0]@,
                Some(c) => r matches Ok(OperationPlan::Uninstall(rc, v)) && rc@ == c && v@
                    == args@[1]@,
            }
        },
{
    if is_help(args) {
        return Ok(OperationPlan::Done(usage(OperationKind::BackendUninstall, 0)));
    }
    if let Err(e) = environment {
        return Err(e);
    }
    if args.len() != 2 || args[0].as_str().unicode_len() == 0 || args[1].as_str().unicode_len() == 0 {
        return Ok(OperationPlan::Done(usage(OperationKind::BackendUninstall, 1)));
    }
    let components = backend_components();
    proof {
        lemma_first_named_view(components@, args@[0]@);
    }
    let component = match find_component(components.as_slice(), args[0].as_str()) {
        Ok(c) => c,
        Err(e) => return Err(e),
    };
    Ok(OperationPlan::Uninstall(component, args[1].clone()))
}

/// Decides `backend update <component>`: install its latest release.
pub fn backend_update(args: &Vec<String>, environment: Result<Environment, String>) -> (r: Result<
    OperationPlan,
    String,
>)
    ensures
        asks_help(args@) ==> (r matches Ok(p) && is_usage_operation(p, OperationKind::BackendUpdate, 0)),
        !asks_help(args@) && environment is Err ==> (r matches Err(m) && m@ == environment->Err_0@),
        !asks_help(args@) && environment is Ok ==> if args@.len() != 1 || args@[0]@.len() == 0 {
            r matches Ok(p) && is_usage_operation(p, OperationKind::BackendUpdate, 1)
        } else {
            match first_named_view(backend_component_views(), args@[0]@) {
                None => r matches Err(e) && e@ == "unknown component: "@ + args@[0]@,
                Some(c) => r matches Ok(OperationPlan::Install(reqs)) && reqs@.len() == 1
                    && reqs@[0]@ == (c, None::<(bool, Seq<char>)>, false),
            }
        },
{
    if is_help(args) {
        return Ok(OperationPlan::Done(usage(OperationKind::BackendUpdate, 0)));
    }
    if let Err(e) = environment {
        return Err(e);
    }
    if args.len() != 1 || args[0].as_str().unicode_len() == 0 {
        return Ok(OperationPlan::Done(usage(OperationKind::BackendUpdate, 1)));
    }
    let components = backend_components();
    proof {
        lemma_first_named_view(components@, args@[0]@);
    }
    let component = match find_component(components.as_slice(), args[0].as_str()) {
        Ok(c) => c,
        Err(e) => return Err(e),
    };
    let mut reqs: Vec<InstallRequest> = Vec::new();
    reqs.push(InstallRequest { component, version: crate::operations::VersionRequest::Latest, skip_sse_build: false });
    Ok(OperationPlan::Install(reqs))
}

/// The installed engine directory the `build` command uses, per the environment's binding.
pub open spec fn engine_build_dir(environment: (Seq<char>, Seq<char>, Seq<char>)) -> Result<(Seq<char>, Seq<char>), Seq<char>> {
    match metadata_value(environment.2, "engine_version"@) {
        None => Err("engine is not installed in this backend environment."@),
        Some(version) => Ok((version, component_dir(environment.0, environment.1, "engine"@, version))),
    }
}

/// Locates the installed engine: its bound version and its directory.
pub fn engine_build_target(environment: &Environment) -> (r: Result<(String, String), String>)
    ensures
        match r {
            Ok((v, t)) => engine_build_dir(environment@) == Ok::<(Seq<char>, Seq<char>), Seq<char>>((v@, t@)),
            Err(m) => engine_build_dir(environment@) == Err::<(Seq<char>, Seq<char>), Seq<char>>(m@),
        },
{
    match metadata_get(environment.metadata.as_str(), "engine_version") {
        None => Err("engine is not installed in this backend environment.".to_owned()),
        Some(version) => {
            let target = component_directory(environment, "engine", version.as_str());
            Ok((version, target))
        },
    }
}

/// Decides `backend build sse-runtime`, given whether the engine directory (as
/// [`engine_build_target`] locates it) exists and holds a complete installation.
pub fn backend_build(
    args: &Vec<String>,
    environment: Result<Environment, String>,
    target_is_dir: bool,
    target_complete: bool,
) -> (r: Result<OperationPlan, String>)
    ensures
        asks_help(args@) ==> (r matches Ok(p) && is_usage_operation(p, OperationKind::BackendBuild, 0)),
        !asks_help(args@) && environment is Err ==> (r matches Err(m) && m@ == environment->Err_0@),
        !asks_help(args@) && environment is Ok ==> if args@.len() != 1 || args@[0]@ != "sse-runtime"@ {
            r matches Ok(p) && is_usage_operation(p, OperationKind::BackendBuild, 1)
        } else {
            match engine_build_dir(environment->Ok_0@) {
                Err(m) => r matches Err(e) && e@ == m,
                Ok((version, target)) => if !target_is_dir {
                    r matches Err(e) && e@ == "installed engine release not found: "@ + target
                } else if !target_complete {
                    r matches Err(e) && e@ == "engine "@ + version
                        + " is not completely installed in this backend environment."@
                } else {
                    r matches Ok(OperationPlan::Build(t)) && t@ == target
                },
            }
        },
{
    if is_help(args) {
        return Ok(OperationPlan::Done(usage(OperationKind::BackendBuild, 0)));
    }
    let environment = match environment {
        Err(e) => return Err(e),
        Ok(e) => e,
    };
    if args.len() != 1 || !str_eq(args[0].as_str(), "sse-runtime") {
        return Ok(OperationPlan::Done(usage(OperationKind::BackendBuild, 1)));
    }
    let (version, target) = match engine_build_target(&environment) {
        Ok(found) => found,
        Err(e) => return Err(e),
    };
    if !target_is_dir {
        let mut m = "installed engine release not found: ".to_owned();
        m.append(target.as_str());
        return Err(m);
    }
    if !target_complete {
        let mut m = "engine ".to_owned();
        m.append(version.as_str());
        m.append(" is not completely installed in this backend environment.");
        return Err(m);
    }
    Ok(OperationPlan::Build(target))
}

} // verus!
