//! Manager service lifecycle commands.

use vstd::prelude::*;
use crate::args::{asks_help, is_help};
use crate::chars::str_eq;
use crate::environment::Environment;
use crate::lifecycle::{
    is_start_step, is_stop_step, is_usage_plan, new_run, start_step, stop_step, usage, Finish,
    LifecycleKind, LifecyclePlan, OnFailure, PlanStep, StopStyle,
};
use crate::metadata::{metadata_get, metadata_value};
use crate::operations::{component_dir, component_directory};
use crate::paths::{join_path, joined};
use crate::service::{string_views, ServiceCommand};

verus! {

/// Decides `manager start [--foreground]`.
pub fn manager_start(args: &Vec<String>, environment: Result<Environment, String>) -> (r: Result<LifecyclePlan, String>)
    ensures
        asks_help(args@) ==> (r matches Ok(p) && is_usage_plan(p, LifecycleKind::ManagerStart, 0)),
        !asks_help(args@) && environment is Err ==> (r matches Err(m) && m@ == environment->Err_0@),
        !asks_help(args@) && environment is Ok ==> ({
            let foreground = args@.len() > 0 && args@[0]@ == "--foreground"@;
            if (!foreground && args@.len() > 0) || (foreground && args@.len() != 1) {
                r matches Ok(p) && is_usage_plan(p, LifecycleKind::ManagerStart, 1)
            } else {
                r matches Ok(LifecyclePlan::Run(run)) && run.finish == Finish::StartCode
                    && run.next == 0 && !run.awaiting && !run.failed && run.code == 0 && run.steps@.len() == 1
                    && is_start_step(run.steps@[0], "manager"@, foreground, None, true, OnFailure::Abort)
            }
        }),
{
    if is_help(args) {
        return Ok(LifecyclePlan::Done(usage(LifecycleKind::ManagerStart, 0)));
    }
    if let Err(e) = environment {
        return Err(e);
    }
    let foreground = args.len() > 0 && str_eq(args[0].as_str(), "--foreground");
    if (!foreground && args.len() > 0) || (foreground && args.len() != 1) {
        return Ok(LifecyclePlan::Done(usage(LifecycleKind::ManagerStart, 1)));
    }
    let mut steps: Vec<PlanStep> = Vec::new();
    steps.push(start_step("manager", foreground, None, true, OnFailure::Abort));
    Ok(LifecyclePlan::Run(new_run(steps, Finish::StartCode)))
}

/// Decides `manager stop`.
pub fn manager_stop(args: &Vec<String>, environment: Result<Environment, String>) -> (r: Result<LifecyclePlan, String>)
    ensures
        asks_help(args@) ==> (r matches Ok(p) && is_usage_plan(p, LifecycleKind::ManagerStop, 0)),
        !asks_help(args@) && environment is Err ==> (r matches Err(m) && m@ == environment->Err_0@),
        !asks_help(args@) && environment is Ok ==> if args@.len() > 0 {
            r matches Ok(p) && is_usage_plan(p, LifecycleKind::ManagerStop, 1)
        } else {
            r matches Ok(LifecyclePlan::Run(run)) && run.finish == Finish::Success && run.next == 0
                && !run.awaiting && !run.failed && run.code == 0 && run.steps@.len() == 1
                && is_stop_step(run.steps@[0], "manager"@, StopStyle::Manager, OnFailure::Abort)
        },
{
    if is_help(args) {
        return Ok(LifecyclePlan::Done(usage(LifecycleKind::ManagerStop, 0)));
    }
    if let Err(e) = environment {
        return Err(e);
    }
    if args.len() > 0 {
        return Ok(LifecyclePlan::Done(usage(LifecycleKind::ManagerStop, 1)));
    }
    let mut steps: Vec<PlanStep> = Vec::new();
    steps.push(stop_step("manager", StopStyle::Manager, OnFailure::Abort));
    Ok(LifecyclePlan::Run(new_run(steps, Finish::Success)))
}

/// Decides `manager restart`: stop the manager, then start it in the background.
pub fn manager_restart(args: &Vec<String>, environment: Result<Environment, String>) -> (r: Result<LifecyclePlan, String>)
    ensures
        asks_help(args@) ==> (r matches Ok(p) && is_usage_plan(p, LifecycleKind::ManagerRestart, 0)),
        !asks_help(args@) && environment is Err ==> (r matches Err(m) && m@ == environment->Err_0@),
        !asks_help(args@) && environment is Ok ==> if args@.len() > 0 {
            r matches Ok(p) && is_usage_plan(p, LifecycleKind::ManagerRestart, 1)
        } else {
            r matches Ok(LifecyclePlan::Run(run)) && run.finish == Finish::Success && run.next == 0
                && !run.awaiting && !run.failed && run.code == 0 && run.steps@.len() == 2
                && is_stop_step(run.steps@[0], "manager"@, StopStyle::Manager, OnFailure::Abort)
                && is_start_step(run.steps@[1], "manager"@, false, None, true, OnFailure::Abort)
        },
{
    if is_help(args) {
        return Ok(LifecyclePlan::Done(usage(LifecycleKind::ManagerRestart, 0)));
    }
    if let Err(e) = environment {
        return Err(e);
    }
    if args.len() > 0 {
        return Ok(LifecyclePlan::Done(usage(LifecycleKind::ManagerRestart, 1)));
    }
    let mut steps: Vec<PlanStep> = Vec::new();
    steps.push(stop_step("manager", StopStyle::Manager, OnFailure::Abort));
    steps.push(start_step("manager", false, None, true, OnFailure::Abort));
    Ok(LifecyclePlan::Run(new_run(steps, Finish::Success)))
}

/// The project directory the manager runs from, per the environment's binding, or the
/// diagnostic when the manager is not bound.
pub open spec fn manager_project_dir(environment: (Seq<char>, Seq<char>, Seq<char>)) -> Result<Seq<char>, Seq<char>> {
    match metadata_value(environment.2, "manager_version"@) {
        None => Err("cannot start manager. Missing manager_version in .metadata."@),
        Some(version) => Ok(component_dir(environment.0, environment.1, "manager"@, version)),
    }
}

/// Locates the project directory the manager runs from.
pub fn manager_project(environment: &Environment) -> (r: Result<String, String>)
    ensures
        match r {
            Ok(p) => manager_project_dir(environment@) == Ok::<Seq<char>, Seq<char>>(p@),
            Err(m) => manager_project_dir(environment@) == Err::<Seq<char>, Seq<char>>(m@),
        },
{
    match metadata_get(environment.metadata.as_str(), "manager_version") {
        None => Err("cannot start manager. Missing manager_version in .metadata.".to_owned()),
        Some(version) => Ok(component_directory(environment, "manager", version.as_str())),
    }
}

/// The arguments of `uv` that run the manager.
pub open spec fn manager_uv_args(root: Seq<char>, project: Seq<char>) -> Seq<Seq<char>> {
    seq![
        "run"@,
        "--project"@,
        project,
        "python"@,
        "-m"@,
        "oqtopus_manager.main"@,
        "-c"@,
        joined(root, "config/config.yaml"@),
        "-l"@,
        joined(root, "config/logging.yaml"@),
    ]
}

/// Builds the command that runs the manager, given whether its project directory (as
/// [`manager_project`] locates it) exists.
pub fn manager_command(environment: &Environment, project_is_dir: bool) -> (r: Result<ServiceCommand, String>)
    ensures
        match manager_project_dir(environment@) {
            Err(m) => r matches Err(e) && e@ == m,
            Ok(project) => if !project_is_dir {
                r matches Err(e) && e@ == "cannot start manager. Installed release directory not found: "@ + project
            } else {
                r matches Ok(c) && c.program@ == "uv"@ && c.environment@.len() == 0
                    && string_views(c.args@) == manager_uv_args(environment.root@, project)
            },
        },
{
    let project = match manager_project(environment) {
        Ok(p) => p,
        Err(e) => return Err(e),
    };
    if !project_is_dir {
        let mut m = "cannot start manager. Installed release directory not found: ".to_owned();
        m.append(project.as_str());
        return Err(m);
    }
    let mut args: Vec<String> = Vec::new();
    args.push("run".to_owned());
    args.push("--project".to_owned());
    args.push(project);
    args.push("python".to_owned());
    args.push("-m".to_owned());
    args.push("oqtopus_manager.main".to_owned());
    args.push("-c".to_owned());
    args.push(join_path(environment.root.as_str(), "config/config.yaml"));
    args.push("-l".to_owned());
    args.push(join_path(environment.root.as_str(), "config/logging.yaml"));
    let command = ServiceCommand::uv(args);
    assert(string_views(command.args@) =~= manager_uv_args(
        environment.root@,
        manager_project_dir(environment@)->Ok_0,
    ));
    Ok(command)
}

} // verus!
