//! Backend service lifecycle commands.

use vstd::prelude::*;
use crate::args::{asks_help, is_help, single_target};
use crate::chars::str_eq;
use crate::environment::Environment;
use crate::metadata::{metadata_get, metadata_value};
use crate::operations::{component_dir, component_directory};
use crate::paths::{join_path, joined};
use crate::service::{string_views, ServiceCommand};
use crate::lifecycle::{
    is_usage_plan,
    is_start_step, is_stop_step, new_run, start_step, stop_step, usage, Finish, LifecycleKind,
    LifecycleOutcome, LifecycleOutput, LifecyclePlan, LifecycleRun, OnFailure, PlanStep, StopStyle,
};
use super::services::{
    named_service, parse_service, service_name, start_order, start_order_services, BackendService,
};

verus! {

/// `steps` start every backend service in start order, each failure ending the command.
pub open spec fn starts_all(steps: Seq<PlanStep>) -> bool {
    &&& steps.len() == start_order().len()
    &&& forall|i: int|
        0 <= i < steps.len() ==> is_start_step(
            #[trigger] steps[i],
            service_name(start_order()[i]),
            false,
            None,
            false,
            OnFailure::Abort,
        )
}

/// `steps` stop every backend service in reverse start order, reporting each failure and going on.
pub open spec fn stops_all(steps: Seq<PlanStep>) -> bool {
    &&& steps.len() == start_order().len()
    &&& forall|i: int|
        0 <= i < steps.len() ==> is_stop_step(
            #[trigger] steps[i],
            service_name(start_order()[start_order().len() - 1 - i]),
            StopStyle::Backend,
            OnFailure::Report,
        )
}

/// The step that starts one backend service.
pub fn start_backend_service(service: BackendService, foreground: bool) -> (r: PlanStep)
    ensures
        is_start_step(r, service_name(service), foreground, None, false, OnFailure::Abort),
{
    start_step(service.name(), foreground, None, false, OnFailure::Abort)
}

/// The step that stops one backend service, with the given failure policy.
pub fn stop_backend_service(service: BackendService, policy: OnFailure) -> (r: PlanStep)
    ensures
        is_stop_step(r, service_name(service), StopStyle::Backend, policy),
{
    stop_step(service.name(), StopStyle::Backend, policy)
}

/// Appends the steps that start every service in start order.
pub fn start_all(steps: &mut Vec<PlanStep>)
    ensures
        final(steps)@.len() == old(steps)@.len() + start_order().len(),
        final(steps)@.take(old(steps)@.len() as int) == old(steps)@,
        starts_all(final(steps)@.skip(old(steps)@.len() as int)),
{
    let order = start_order_services();
    let ghost start = old(steps)@;
    let mut i: usize = 0;
    while i < order.len()
        invariant
            i <= order@.len(),
            order@ == start_order(),
            steps@.len() == start.len() + i,
            steps@.take(start.len() as int) == start,
            forall|j: int|
                0 <= j < i ==> is_start_step(
                    #[trigger] steps@[start.len() + j],
                    service_name(start_order()[j]),
                    false,
                    None,
                    false,
                    OnFailure::Abort,
                ),
        decreases order@.len() - i,
    {
        let ghost before = steps@;
        steps.push(start_backend_service(order[i], false));
        assert(steps@.take(start.len() as int) =~= before.take(start.len() as int));
        assert forall|j: int| 0 <= j < i + 1 implies is_start_step(
            #[trigger] steps@[start.len() + j],
            service_name(start_order()[j]),
            false,
            None,
            false,
            OnFailure::Abort,
        ) by {
            if j < i {
                assert(steps@[start.len() + j] == before[start.len() + j]);
            }
        }
        i = i + 1;
    }
    let ghost tail = steps@.skip(start.len() as int);
    assert forall|j: int| 0 <= j < tail.len() implies is_start_step(
        #[trigger] tail[j],
        service_name(start_order()[j]),
        false,
        None,
        false,
        OnFailure::Abort,
    ) by {
        assert(tail[j] == steps@[start.len() + j]);
    }
}

/// Appends the steps that stop every service in reverse start order, reporting failures.
pub fn stop_all(steps: &mut Vec<PlanStep>)
    ensures
        final(steps)@.len() == old(steps)@.len() + start_order().len(),
        final(steps)@.take(old(steps)@.len() as int) == old(steps)@,
        stops_all(final(steps)@.skip(old(steps)@.len() as int)),
{
    let order = start_order_services();
    let ghost start = old(steps)@;
    let n = order.len();
    let mut i: usize = 0;
    while i < n
        invariant
            i <= n,
            n == order@.len(),
            order@ == start_order(),
            steps@.len() == start.len() + i,
            steps@.take(start.len() as int) == start,
            forall|j: int|
                0 <= j < i ==> is_stop_step(
                    #[trigger] steps@[start.len() + j],
                    service_name(start_order()[start_order().len() - 1 - j]),
                    StopStyle::Backend,
                    OnFailure::Report,
                ),
        decreases n - i,
    {
        let ghost before = steps@;
        steps.push(stop_backend_service(order[n - 1 - i], OnFailure::Report));
        assert(steps@.take(start.len() as int) =~= before.take(start.len() as int));
        assert forall|j: int| 0 <= j < i + 1 implies is_stop_step(
            #[trigger] steps@[start.len() + j],
            service_name(start_order()[start_order().len() - 1 - j]),
            StopStyle::Backend,
            OnFailure::Report,
        ) by {
            if j < i {
                assert(steps@[start.len() + j] == before[start.len() + j]);
            }
        }
        i = i + 1;
    }
    let ghost tail = steps@.skip(start.len() as int);
    assert forall|j: int| 0 <= j < tail.len() implies is_stop_step(
        #[trigger] tail[j],
        service_name(start_order()[start_order().len() - 1 - j]),
        StopStyle::Backend,
        OnFailure::Report,
    ) by {
        assert(tail[j] == steps@[start.len() + j]);
    }
}

/// Restarting every service: stop all (reporting failures), and only when every stop succeeded,
/// start all.
pub fn restart_all() -> (r: LifecycleRun)
    ensures
        r.finish == Finish::Success,
        r.next == 0 && !r.awaiting && !r.failed && r.code == 0,
        r.steps@.len() == 2 * start_order().len() + 1,
        stops_all(r.steps@.take(start_order().len() as int)),
        r.steps@[start_order().len() as int] is Checkpoint,
        starts_all(r.steps@.skip(start_order().len() + 1int)),
{
    let mut steps: Vec<PlanStep> = Vec::new();
    stop_all(&mut steps);
    let ghost stops = steps@;
    steps.push(PlanStep::Checkpoint);
    let ghost checked = steps@;
    start_all(&mut steps);
    assert(steps@.take(start_order().len() as int) =~= stops.skip(0));
    assert(stops.skip(0) =~= stops);
    assert(steps@.skip(start_order().len() + 1int) =~= steps@.skip(checked.len() as int));
    assert(steps@[start_order().len() as int] == checked[start_order().len() as int]);
    new_run(steps, Finish::Success)
}

/// Restarting one service: stop it, then start it; either failure ends the command.
pub fn restart_backend_service(service: BackendService) -> (r: LifecycleRun)
    ensures
        r.finish == Finish::Success,
        r.next == 0 && !r.awaiting && !r.failed && r.code == 0,
        r.steps@.len() == 2,
        is_stop_step(r.steps@[0], service_name(service), StopStyle::Backend, OnFailure::Abort),
        is_start_step(r.steps@[1], service_name(service), false, None, false, OnFailure::Abort),
{
    let mut steps: Vec<PlanStep> = Vec::new();
    steps.push(stop_backend_service(service, OnFailure::Abort));
    steps.push(start_backend_service(service, false));
    new_run(steps, Finish::Success)
}

/// Decides `backend start`: one service (optionally in the foreground, reporting its status) or
/// `all` in start order.
pub fn backend_start(args: &Vec<String>, environment: Result<Environment, String>) -> (r: Result<
    LifecyclePlan,
    String,
>)
    ensures
        asks_help(args@) ==> (r matches Ok(p) && is_usage_plan(p, LifecycleKind::BackendStart, 0)),
        !asks_help(args@) && environment is Err ==> (r matches Err(m) && m@ == environment->Err_0@),
        !asks_help(args@) && environment is Ok ==> ({
            let foreground = args@.len() > 1 && args@[1]@ == "--foreground"@;
            if args@.len() == 0 || args@[0]@.len() == 0 || (args@.len() != 1 && !(args@.len() == 2
                && foreground)) {
                r matches Ok(p) && is_usage_plan(p, LifecycleKind::BackendStart, 1)
            } else if args@[0]@ == "all"@ {
                if foreground {
                    r matches Err(m) && m@
                        == "oqtopus backend start all does not support --foreground. Start one service at a time in foreground mode."@
                } else {
                    r matches Ok(LifecyclePlan::Run(run)) && run.finish == Finish::Success
                        && run.next == 0 && !run.awaiting && !run.failed && run.code == 0 && starts_all(run.steps@)
                }
            } else {
                match named_service(args@[0]@) {
                    None => r matches Err(m) && m@ == "unknown service: "@ + args@[0]@,
                    Some(s) => r matches Ok(LifecyclePlan::Run(run)) && run.finish
                        == Finish::StartCode && run.next == 0 && !run.awaiting && !run.failed && run.code == 0
                        && run.steps@.len() == 1 && is_start_step(
                        run.steps@[0],
                        service_name(s),
                        foreground,
                        None,
                        false,
                        OnFailure::Abort,
                    ),
                }
            }
        }),
{
    if is_help(args) {
        return Ok(LifecyclePlan::Done(usage(LifecycleKind::BackendStart, 0)));
    }
    if let Err(e) = environment {
        return Err(e);
    }
    if args.len() == 0 || args[0].as_str().unicode_len() == 0 {
        return Ok(LifecyclePlan::Done(usage(LifecycleKind::BackendStart, 1)));
    }
    let target = args[0].as_str();
    let foreground = args.len() > 1 && str_eq(args[1].as_str(), "--foreground");
    if args.len() != 1 && !(args.len() == 2 && foreground) {
        return Ok(LifecyclePlan::Done(usage(LifecycleKind::BackendStart, 1)));
    }
    if str_eq(target, "all") {
        if foreground {
            return Err(
                "oqtopus backend start all does not support --foreground. Start one service at a time in foreground mode.".to_owned(),
            );
        }
        let mut steps: Vec<PlanStep> = Vec::new();
        start_all(&mut steps);
        assert(steps@.skip(0) =~= steps@);
        Ok(LifecyclePlan::Run(new_run(steps, Finish::Success)))
    } else {
        let service = match parse_service(target) {
            Ok(s) => s,
            Err(e) => return Err(e),
        };
        let mut steps: Vec<PlanStep> = Vec::new();
        steps.push(start_backend_service(service, foreground));
        Ok(LifecyclePlan::Run(new_run(steps, Finish::StartCode)))
    }
}

/// Decides `backend stop`: one service, or `all` in reverse start order, where failures are
/// reported and the command exits 1 if any stop failed.
pub fn backend_stop(args: &Vec<String>, environment: Result<Environment, String>) -> (r: Result<
    LifecyclePlan,
    String,
>)
    ensures
        asks_help(args@) ==> (r matches Ok(p) && is_usage_plan(p, LifecycleKind::BackendStop, 0)),
        !asks_help(args@) && environment is Err ==> (r matches Err(m) && m@ == environment->Err_0@),
        !asks_help(args@) && environment is Ok ==> ({
            if !(args@.len() == 1 && args@[0]@.len() > 0) {
                r matches Ok(p) && is_usage_plan(p, LifecycleKind::BackendStop, 1)
            } else if args@[0]@ == "all"@ {
                r matches Ok(LifecyclePlan::Run(run)) && run.finish == Finish::FailedFlag
                    && run.next == 0 && !run.awaiting && !run.failed && run.code == 0 && stops_all(run.steps@)
            } else {
                match named_service(args@[0]@) {
                    None => r matches Err(m) && m@ == "unknown service: "@ + args@[0]@,
                    Some(s) => r matches Ok(LifecyclePlan::Run(run)) && run.finish
                        == Finish::Success && run.next == 0 && !run.awaiting && !run.failed && run.code == 0
                        && run.steps@.len() == 1 && is_stop_step(
                        run.steps@[0],
                        service_name(s),
                        StopStyle::Backend,
                        OnFailure::Abort,
                    ),
                }
            }
        }),
{
    if is_help(args) {
        return Ok(LifecyclePlan::Done(usage(LifecycleKind::BackendStop, 0)));
    }
    if let Err(e) = environment {
        return Err(e);
    }
    let target = match single_target(args) {
        None => return Ok(LifecyclePlan::Done(usage(LifecycleKind::BackendStop, 1))),
        Some(t) => t,
    };
    if str_eq(target, "all") {
        let mut steps: Vec<PlanStep> = Vec::new();
        stop_all(&mut steps);
        assert(steps@.skip(0) =~= steps@);
        Ok(LifecyclePlan::Run(new_run(steps, Finish::FailedFlag)))
    } else {
        let service = match parse_service(target) {
            Ok(s) => s,
            Err(e) => return Err(e),
        };
        let mut steps: Vec<PlanStep> = Vec::new();
        steps.push(stop_backend_service(service, OnFailure::Abort));
        Ok(LifecyclePlan::Run(new_run(steps, Finish::Success)))
    }
}

/// Decides `backend restart`: one service, or `all`, which starts nothing when a stop failed.
pub fn backend_restart(args: &Vec<String>, environment: Result<Environment, String>) -> (r: Result<
    LifecyclePlan,
    String,
>)
    ensures
        asks_help(args@) ==> (r matches Ok(p) && is_usage_plan(p, LifecycleKind::BackendRestart, 0)),
        !asks_help(args@) && environment is Err ==> (r matches Err(m) && m@ == environment->Err_0@),
        !asks_help(args@) && environment is Ok ==> ({
            if !(args@.len() == 1 && args@[0]@.len() > 0) {
                r matches Ok(p) && is_usage_plan(p, LifecycleKind::BackendRestart, 1)
            } else if args@[0]@ == "all"@ {
                r matches Ok(LifecyclePlan::Run(run)) && run.finish == Finish::Success
                    && run.next == 0 && !run.awaiting && !run.failed && run.code == 0 && run.steps@.len() == 2
                    * start_order().len() + 1 && stops_all(
                    run.steps@.take(start_order().len() as int),
                ) && run.steps@[start_order().len() as int] is Checkpoint && starts_all(
                    run.steps@.skip(start_order().len() + 1int),
                )
            } else {
                match named_service(args@[0]@) {
                    None => r matches Err(m) && m@ == "unknown service: "@ + args@[0]@,
                    Some(s) => r matches Ok(LifecyclePlan::Run(run)) && run.finish
                        == Finish::Success && run.next == 0 && !run.awaiting && !run.failed && run.code == 0
                        && run.steps@.len() == 2 && is_stop_step(
                        run.steps@[0],
                        service_name(s),
                        StopStyle::Backend,
                        OnFailure::Abort,
                    ) && is_start_step(
                        run.steps@[1],
                        service_name(s),
                        false,
                        None,
                        false,
                        OnFailure::Abort,
                    ),
                }
            }
        }),
{
    if is_help(args) {
        return Ok(LifecyclePlan::Done(usage(LifecycleKind::BackendRestart, 0)));
    }
    if let Err(e) = environment {
        return Err(e);
    }
    let target = match single_target(args) {
        None => return Ok(LifecyclePlan::Done(usage(LifecycleKind::BackendRestart, 1))),
        Some(t) => t,
    };
    if str_eq(target, "all") {
        Ok(LifecyclePlan::Run(restart_all()))
    } else {
        let service = match parse_service(target) {
            Ok(s) => s,
            Err(e) => return Err(e),
        };
        Ok(LifecyclePlan::Run(restart_backend_service(service)))
    }
}

} // verus!

verus! {

/// The component, engine project (if any), and Python module that run a backend service.
pub open spec fn service_program(service: BackendService) -> (Seq<char>, Option<Seq<char>>, Seq<char>) {
    match service {
        BackendService::Core | BackendService::SseEngine => (
            "engine"@,
            Some("core"@),
            "oqtopus_engine_core.app"@,
        ),
        BackendService::Mitigator => ("engine"@, Some("mitigator"@), "oqtopus_engine_mitigator.app"@),
        BackendService::Estimator => ("engine"@, Some("estimator"@), "oqtopus_engine_estimator.app"@),
        BackendService::Combiner => ("engine"@, Some("combiner"@), "oqtopus_engine_combiner.app"@),
        BackendService::Tranqu => ("tranqu"@, None, "tranqu_server.proto.service"@),
        BackendService::Gateway => ("gateway"@, None, "device_gateway.service"@),
    }
}

fn program(service: BackendService) -> (r: (&'static str, Option<&'static str>, &'static str))
    ensures
        r.0@ == service_program(service).0,
        match (r.1, service_program(service).1) {
            (Some(a), Some(b)) => a@ == b,
            (None, None) => true,
            _ => false,
        },
        r.2@ == service_program(service).2,
{
    match service {
        BackendService::Core | BackendService::SseEngine => ("engine", Some("core"), "oqtopus_engine_core.app"),
        BackendService::Mitigator => ("engine", Some("mitigator"), "oqtopus_engine_mitigator.app"),
        BackendService::Estimator => ("engine", Some("estimator"), "oqtopus_engine_estimator.app"),
        BackendService::Combiner => ("engine", Some("combiner"), "oqtopus_engine_combiner.app"),
        BackendService::Tranqu => ("tranqu", None, "tranqu_server.proto.service"),
        BackendService::Gateway => ("gateway", None, "device_gateway.service"),
    }
}

/// The project directory a backend service runs from, per the environment's binding of its
/// component, or the diagnostic when the component is not bound.
pub open spec fn backend_project_dir(environment: (Seq<char>, Seq<char>, Seq<char>), service: BackendService) -> Result<Seq<char>, Seq<char>> {
    let (component, project, _) = service_program(service);
    match metadata_value(environment.2, component + "_version"@) {
        None => Err("cannot start '"@ + service_name(service) + "'. Missing "@ + component
            + "_version in .metadata."@),
        Some(version) => {
            let dir = component_dir(environment.0, environment.1, component, version);
            Ok(match project {
                Some(p) => joined(dir, p),
                None => dir,
            })
        },
    }
}

/// Locates the project directory a backend service runs from.
pub fn backend_project(environment: &Environment, service: BackendService) -> (r: Result<String, String>)
    ensures
        match r {
            Ok(p) => backend_project_dir(environment@, service) == Ok::<Seq<char>, Seq<char>>(p@),
            Err(m) => backend_project_dir(environment@, service) == Err::<Seq<char>, Seq<char>>(m@),
        },
{
    let (component, project, _) = program(service);
    let mut key = component.to_owned();
    key.append("_version");
    let version = match metadata_get(environment.metadata.as_str(), key.as_str()) {
        Some(v) => v,
        None => {
            let mut m = "cannot start '".to_owned();
            m.append(service.name());
            m.append("'. Missing ");
            m.append(component);
            m.append("_version in .metadata.");
            return Err(m);
        },
    };
    let dir = component_directory(environment, component, version.as_str());
    match project {
        Some(p) => Ok(join_path(dir.as_str(), p)),
        None => Ok(dir),
    }
}

/// The arguments of `uv` that run a backend service.
pub open spec fn backend_uv_args(root: Seq<char>, project: Seq<char>, service: BackendService) -> Seq<Seq<char>> {
    seq![
        "run"@,
        "--project"@,
        project,
        "python"@,
        "-m"@,
        service_program(service).2,
        "-c"@,
        joined(root, "config/"@ + service_name(service) + "/config.yaml"@),
        "-l"@,
        joined(root, "config/"@ + service_name(service) + "/logging.yaml"@),
    ]
}

/// Builds the command that runs a backend service, given whether its project directory
/// (as [`backend_project`] locates it) exists.
pub fn backend_command(environment: &Environment, service: BackendService, project_is_dir: bool) -> (r: Result<ServiceCommand, String>)
    ensures
        match backend_project_dir(environment@, service) {
            Err(m) => r matches Err(e) && e@ == m,
            Ok(project) => if !project_is_dir {
                r matches Err(e) && e@ == "cannot start '"@ + service_name(service)
                    + "'. Installed release directory not found: "@ + project
            } else {
                r matches Ok(c) && c.program@ == "uv"@ && c.environment@.len() == 0
                    && string_views(c.args@) == backend_uv_args(environment.root@, project, service)
            },
        },
{
    let project = match backend_project(environment, service) {
        Ok(p) => p,
        Err(e) => return Err(e),
    };
    let name = service.name();
    if !project_is_dir {
        let mut m = "cannot start '".to_owned();
        m.append(name);
        m.append("'. Installed release directory not found: ");
        m.append(project.as_str());
        return Err(m);
    }
    let (_, _, module) = program(service);
    let mut config = "config/".to_owned();
    config.append(name);
    config.append("/config.yaml");
    let mut logging = "config/".to_owned();
    logging.append(name);
    logging.append("/logging.yaml");
    let mut args: Vec<String> = Vec::new();
    args.push("run".to_owned());
    args.push("--project".to_owned());
    args.push(project);
    args.push("python".to_owned());
    args.push("-m".to_owned());
    args.push(module.to_owned());
    args.push("-c".to_owned());
    args.push(join_path(environment.root.as_str(), config.as_str()));
    args.push("-l".to_owned());
    args.push(join_path(environment.root.as_str(), logging.as_str()));
    let command = ServiceCommand::uv(args);
    assert(string_views(command.args@) =~= backend_uv_args(
        environment.root@,
        backend_project_dir(environment@, service)->Ok_0,
        service,
    ));
    Ok(command)
}


/// `backend start all` starts the services their dependents need first: the gateway, tranqu,
/// mitigator, estimator and combiner, then the SSE engine, and core last, each in the background
/// and aborting the run when it fails.
pub proof fn law_start_all_starts_dependencies_first(steps: Seq<PlanStep>)
    requires
        starts_all(steps),
    ensures
        steps.len() == 7,
        is_start_step(steps[0], "gateway"@, false, None, false, OnFailure::Abort),
        is_start_step(steps[1], "tranqu"@, false, None, false, OnFailure::Abort),
        is_start_step(steps[2], "mitigator"@, false, None, false, OnFailure::Abort),
        is_start_step(steps[3], "estimator"@, false, None, false, OnFailure::Abort),
        is_start_step(steps[4], "combiner"@, false, None, false, OnFailure::Abort),
        is_start_step(steps[5], "sse_engine"@, false, None, false, OnFailure::Abort),
        is_start_step(steps[6], "core"@, false, None, false, OnFailure::Abort),
{
    assert(is_start_step(steps[0], service_name(start_order()[0]), false, None, false, OnFailure::Abort));
    assert(is_start_step(steps[1], service_name(start_order()[1]), false, None, false, OnFailure::Abort));
    assert(is_start_step(steps[2], service_name(start_order()[2]), false, None, false, OnFailure::Abort));
    assert(is_start_step(steps[3], service_name(start_order()[3]), false, None, false, OnFailure::Abort));
    assert(is_start_step(steps[4], service_name(start_order()[4]), false, None, false, OnFailure::Abort));
    assert(is_start_step(steps[5], service_name(start_order()[5]), false, None, false, OnFailure::Abort));
    assert(is_start_step(steps[6], service_name(start_order()[6]), false, None, false, OnFailure::Abort));
}

/// `backend stop all` stops the services in the reverse order: core first, the gateway last,
/// each failure reported and the run going on.
pub proof fn law_stop_all_stops_dependents_first(steps: Seq<PlanStep>)
    requires
        stops_all(steps),
    ensures
        steps.len() == 7,
        is_stop_step(steps[0], "core"@, StopStyle::Backend, OnFailure::Report),
        is_stop_step(steps[1], "sse_engine"@, StopStyle::Backend, OnFailure::Report),
        is_stop_step(steps[2], "combiner"@, StopStyle::Backend, OnFailure::Report),
        is_stop_step(steps[3], "estimator"@, StopStyle::Backend, OnFailure::Report),
        is_stop_step(steps[4], "mitigator"@, StopStyle::Backend, OnFailure::Report),
        is_stop_step(steps[5], "tranqu"@, StopStyle::Backend, OnFailure::Report),
        is_stop_step(steps[6], "gateway"@, StopStyle::Backend, OnFailure::Report),
{
    assert(is_stop_step(steps[0], service_name(start_order()[6]), StopStyle::Backend, OnFailure::Report));
    assert(is_stop_step(steps[1], service_name(start_order()[5]), StopStyle::Backend, OnFailure::Report));
    assert(is_stop_step(steps[2], service_name(start_order()[4]), StopStyle::Backend, OnFailure::Report));
    assert(is_stop_step(steps[3], service_name(start_order()[3]), StopStyle::Backend, OnFailure::Report));
    assert(is_stop_step(steps[4], service_name(start_order()[2]), StopStyle::Backend, OnFailure::Report));
    assert(is_stop_step(steps[5], service_name(start_order()[1]), StopStyle::Backend, OnFailure::Report));
    assert(is_stop_step(steps[6], service_name(start_order()[0]), StopStyle::Backend, OnFailure::Report));
}
} // verus!
