//! Cloud-local service lifecycle commands.

use vstd::prelude::*;
use crate::args::{asks_help, is_help, is_member, single_target, validate_member};
use crate::chars::str_eq;
use crate::environment::NamedEnvironment;
use crate::lifecycle::{
    is_usage_plan, same_plan, same_step,
    is_start_database_step, is_start_step, is_stop_database_step, is_stop_step, new_run,
    start_step, stop_step, usage, Finish, LifecycleKind, LifecycleOutput, LifecyclePlan,
    OnFailure, PlanStep, ServiceAction, StopStyle,
};
use crate::metadata::{metadata_get, metadata_value};
use crate::operations::{component_dir, component_directory};
use crate::paths::{join_path, joined};
use crate::service::{string_views, ServiceCommand};
use crate::chars::opt_view;
use crate::environment::Environment;
use super::{cloud_dir, service_names, services};

verus! {

/// Shutdown order: the reverse of the service inventory, so dependents stop first.
pub open spec fn stop_order() -> Seq<Seq<char>> {
    seq!["user"@, "provider"@, "admin"@, "user_signup"@, "worker"@, "db"@]
}

/// The services in shutdown order.
pub fn stop_order_names() -> (r: Vec<&'static str>)
    ensures
        r@.map_values(|s: &str| s@) == stop_order(),
{
    let r = vec!["user", "provider", "admin", "user_signup", "worker", "db"];
    assert(r@.map_values(|s: &str| s@) =~= stop_order());
    r
}

/// The log file of a background cloud-local service.
pub open spec fn service_log(root: Seq<char>, service: Seq<char>) -> Seq<char> {
    joined(root, "logs/"@ + service + "/service.log"@)
}

/// `step` starts `service`: the database through its own procedure, any other service as a
/// process logging to its log file.
pub open spec fn is_cloud_start_step(step: PlanStep, root: Seq<char>, service: Seq<char>, foreground: bool) -> bool {
    if service == "db"@ {
        is_start_database_step(step, OnFailure::Abort)
    } else {
        is_start_step(step, service, foreground, Some(service_log(root, service)), false, OnFailure::Abort)
    }
}

/// `step` stops `service`, failing as `policy` says.
pub open spec fn is_cloud_stop_step(step: PlanStep, service: Seq<char>, policy: OnFailure) -> bool {
    if service == "db"@ {
        is_stop_database_step(step, policy)
    } else {
        is_stop_step(step, service, StopStyle::CloudLocal, policy)
    }
}

/// `steps` start every service of the inventory in order.
pub open spec fn starts_all(steps: Seq<PlanStep>, root: Seq<char>) -> bool {
    &&& steps.len() == services().len()
    &&& forall|i: int| 0 <= i < steps.len() ==> is_cloud_start_step(#[trigger] steps[i], root, services()[i], false)
}

/// `steps` stop every service in shutdown order, reporting each failure and going on.
pub open spec fn stops_all(steps: Seq<PlanStep>) -> bool {
    &&& steps.len() == stop_order().len()
    &&& forall|i: int| 0 <= i < steps.len() ==> is_cloud_stop_step(#[trigger] steps[i], stop_order()[i], OnFailure::Report)
}

/// The step that starts one service, or the diagnostic for a name outside the inventory.
pub fn start_cloud_service(environment: &NamedEnvironment, service: &str, foreground: bool) -> (r: Result<PlanStep, String>)
    ensures
        !services().contains(service@) ==> (r matches Err(m) && m@ == "unknown service: "@ + service@),
        services().contains(service@) ==> (r matches Ok(step) && is_cloud_start_step(
            step,
            environment.environment.root@,
            service@,
            foreground,
        )),
{
    if let Err(e) = check_service(service) {
        return Err(e);
    }
    if str_eq(service, "db") {
        Ok(PlanStep::Act(ServiceAction::StartDatabase, OnFailure::Abort))
    } else {
        let mut rel = "logs/".to_owned();
        rel.append(service);
        rel.append("/service.log");
        let log = join_path(environment.environment.root.as_str(), rel.as_str());
        Ok(start_step(service, foreground, Some(log), false, OnFailure::Abort))
    }
}

/// The step that stops one service, with the given failure policy.
pub fn stop_cloud_service(service: &str, policy: OnFailure) -> (r: PlanStep)
    ensures
        is_cloud_stop_step(r, service@, policy),
{
    if str_eq(service, "db") {
        PlanStep::Act(ServiceAction::StopDatabase, policy)
    } else {
        stop_step(service, StopStyle::CloudLocal, policy)
    }
}

/// Appends the steps that stop `names` in order, reporting failures and going on.
pub fn stop_many_named(names: &Vec<&'static str>, steps: &mut Vec<PlanStep>)
    ensures
        final(steps)@.len() == old(steps)@.len() + names@.len(),
        final(steps)@.take(old(steps)@.len() as int) == old(steps)@,
        forall|i: int| 0 <= i < names@.len() ==> is_cloud_stop_step(
            #[trigger] final(steps)@[old(steps)@.len() + i],
            names@[i]@,
            OnFailure::Report,
        ),
{
    let ghost start = old(steps)@;
    let mut i: usize = 0;
    while i < names.len()
        invariant
            i <= names@.len(),
            steps@.len() == start.len() + i,
            steps@.take(start.len() as int) == start,
            forall|j: int| 0 <= j < i ==> is_cloud_stop_step(
                #[trigger] steps@[start.len() + j],
                names@[j]@,
                OnFailure::Report,
            ),
        decreases names@.len() - i,
    {
        let ghost before = steps@;
        steps.push(stop_cloud_service(names[i], OnFailure::Report));
        assert(steps@.take(start.len() as int) =~= before.take(start.len() as int));
        assert forall|j: int| 0 <= j < i + 1 implies is_cloud_stop_step(
            #[trigger] steps@[start.len() + j],
            names@[j]@,
            OnFailure::Report,
        ) by {
            if j < i {
                assert(steps@[start.len() + j] == before[start.len() + j]);
            }
        }
        i = i + 1;
    }
}

/// Appends the steps that start every service of the inventory in order.
fn start_all(environment: &NamedEnvironment, steps: &mut Vec<PlanStep>)
    ensures
        final(steps)@.len() == old(steps)@.len() + services().len(),
        final(steps)@.take(old(steps)@.len() as int) == old(steps)@,
        starts_all(final(steps)@.skip(old(steps)@.len() as int), environment.environment.root@),
{
    let names = service_names();
    let ghost start = old(steps)@;
    let mut i: usize = 0;
    while i < names.len()
        invariant
            i <= names@.len(),
            names@.map_values(|s: &str| s@) == services(),
            steps@.len() == start.len() + i,
            steps@.take(start.len() as int) == start,
            forall|j: int| 0 <= j < i ==> is_cloud_start_step(
                #[trigger] steps@[start.len() + j],
                environment.environment.root@,
                services()[j],
                false,
            ),
        decreases names@.len() - i,
    {
        let ghost before = steps@;
        assert(names@.map_values(|s: &str| s@)[i as int] == names@[i as int]@);
        assert(services()[i as int] == names@[i as int]@);
        assert(services().contains(names@[i as int]@));
        match start_cloud_service(environment, names[i], false) {
            Ok(step) => steps.push(step),
            Err(_) => {},
        }
        assert(steps@.take(start.len() as int) =~= before.take(start.len() as int));
        assert forall|j: int| 0 <= j < i + 1 implies is_cloud_start_step(
            #[trigger] steps@[start.len() + j],
            environment.environment.root@,
            services()[j],
            false,
        ) by {
            if j < i {
                assert(steps@[start.len() + j] == before[start.len() + j]);
            }
        }
        i = i + 1;
    }
    let ghost tail = steps@.skip(start.len() as int);
    assert forall|j: int| 0 <= j < tail.len() implies is_cloud_start_step(
        #[trigger] tail[j],
        environment.environment.root@,
        services()[j],
        false,
    ) by {
        assert(tail[j] == steps@[start.len() + j]);
    }
}

/// Appends the steps that stop every service in shutdown order.
fn stop_all(steps: &mut Vec<PlanStep>)
    ensures
        final(steps)@.len() == old(steps)@.len() + stop_order().len(),
        final(steps)@.take(old(steps)@.len() as int) == old(steps)@,
        stops_all(final(steps)@.skip(old(steps)@.len() as int)),
{
    let order = stop_order_names();
    let ghost start = old(steps)@;
    stop_many_named(&order, steps);
    let ghost tail = steps@.skip(start.len() as int);
    assert forall|j: int| 0 <= j < tail.len() implies is_cloud_stop_step(
        #[trigger] tail[j],
        stop_order()[j],
        OnFailure::Report,
    ) by {
        assert(tail[j] == steps@[start.len() + j]);
        assert(order@.map_values(|s: &str| s@)[j] == order@[j]@);
    }
}

/// `target` is a cloud-local service.
pub open spec fn is_service(target: Seq<char>) -> bool {
    services().contains(target)
}

/// Checks that `target` is a cloud-local service.
fn check_service(target: &str) -> (r: Result<(), String>)
    ensures
        r is Ok <==> is_service(target@),
        r matches Err(m) ==> m@ == "unknown service: "@ + target@,
{
    let names = service_names();
    let r = validate_member(target, names.as_slice());
    proof {
        let vs = names@.map_values(|s: &str| s@);
        if is_member(target@, names@) {
            let i = choose|i: int| 0 <= i < names@.len() && (#[trigger] names@[i])@ == target@;
            assert(vs[i] == target@);
        }
        if is_service(target@) {
            let i = choose|i: int| 0 <= i < vs.len() && vs[i] == target@;
            assert(names@[i]@ == target@);
        }
    }
    r
}

/// What `cloud-local start` decides for `args`: one service (optionally in the foreground) or
/// `all` in inventory order; words after the first two are ignored.
pub open spec fn start_decided(args: Seq<String>, environment: Result<NamedEnvironment, String>, r: Result<LifecyclePlan, String>) -> bool {
    &&& asks_help(args) ==> (r matches Ok(p) && is_usage_plan(p, LifecycleKind::CloudLocalStart, 0))
    &&& !asks_help(args) && environment is Err ==> (r matches Err(m) && m@ == environment->Err_0@)
    &&& !asks_help(args) && environment is Ok ==> ({
        let root = environment->Ok_0.environment.root@;
        let foreground = args.len() > 1 && args[1]@ == "--foreground"@;
        if args.len() == 0 || args[0]@.len() == 0 {
            r matches Ok(p) && is_usage_plan(p, LifecycleKind::CloudLocalStart, 1)
        } else if args[0]@ == "all"@ {
            if foreground {
                r matches Err(m) && m@ == "--foreground is not supported for 'all'."@
            } else {
                r matches Ok(LifecyclePlan::Run(run)) && run.finish == Finish::Success
                    && run.next == 0 && !run.awaiting && !run.failed && run.code == 0 && starts_all(run.steps@, root)
            }
        } else if !is_service(args[0]@) {
            r matches Err(m) && m@ == "unknown service: "@ + args[0]@
        } else {
            r matches Ok(LifecyclePlan::Run(run)) && run.finish == Finish::StartCode
                && run.next == 0 && !run.awaiting && !run.failed && run.code == 0 && run.steps@.len() == 1
                && is_cloud_start_step(run.steps@[0], root, args[0]@, foreground)
        }
    })
}

/// Decides `cloud-local start`: one service (optionally in the foreground) or `all` in
/// inventory order. Arguments after `--foreground` are ignored.
pub fn cloud_local_start(args: &Vec<String>, environment: Result<NamedEnvironment, String>) -> (r: Result<LifecyclePlan, String>)
    ensures
        start_decided(args@, environment, r),
{
    if is_help(args) {
        return Ok(LifecyclePlan::Done(usage(LifecycleKind::CloudLocalStart, 0)));
    }
    let environment = match environment {
        Err(e) => return Err(e),
        Ok(e) => e,
    };
    if args.len() == 0 || args[0].as_str().unicode_len() == 0 {
        return Ok(LifecyclePlan::Done(usage(LifecycleKind::CloudLocalStart, 1)));
    }
    let target = args[0].as_str();
    let foreground = args.len() > 1 && str_eq(args[1].as_str(), "--foreground");
    let mut steps: Vec<PlanStep> = Vec::new();
    if str_eq(target, "all") {
        if foreground {
            return Err("--foreground is not supported for 'all'.".to_owned());
        }
        start_all(&environment, &mut steps);
        assert(steps@.skip(0) =~= steps@);
        Ok(LifecyclePlan::Run(new_run(steps, Finish::Success)))
    } else {
        if let Err(e) = check_service(target) {
            return Err(e);
        }
        match start_cloud_service(&environment, target, foreground) {
            Ok(step) => steps.push(step),
            Err(e) => return Err(e),
        }
        Ok(LifecyclePlan::Run(new_run(steps, Finish::StartCode)))
    }
}

/// Decides `cloud-local stop`: one service, or `all` in shutdown order, where failures are
/// reported and the command exits 1 if any stop failed.
pub fn cloud_local_stop(args: &Vec<String>, environment: Result<NamedEnvironment, String>) -> (r: Result<LifecyclePlan, String>)
    ensures
        asks_help(args@) ==> (r matches Ok(p) && is_usage_plan(p, LifecycleKind::CloudLocalStop, 0)),
        !asks_help(args@) && environment is Err ==> (r matches Err(m) && m@ == environment->Err_0@),
        !asks_help(args@) && environment is Ok ==> ({
            if !(args@.len() == 1 && args@[0]@.len() > 0) {
                r matches Ok(p) && is_usage_plan(p, LifecycleKind::CloudLocalStop, 1)
            } else if args@[0]@ == "all"@ {
                r matches Ok(LifecyclePlan::Run(run)) && run.finish == Finish::FailedFlag
                    && run.next == 0 && !run.awaiting && !run.failed && run.code == 0 && stops_all(run.steps@)
            } else if !is_service(args@[0]@) {
                r matches Err(m) && m@ == "unknown service: "@ + args@[0]@
            } else {
                r matches Ok(LifecyclePlan::Run(run)) && run.finish == Finish::Success
                    && run.next == 0 && !run.awaiting && !run.failed && run.code == 0 && run.steps@.len() == 1
                    && is_cloud_stop_step(run.steps@[0], args@[0]@, OnFailure::Abort)
            }
        }),
{
    if is_help(args) {
        return Ok(LifecyclePlan::Done(usage(LifecycleKind::CloudLocalStop, 0)));
    }
    if let Err(e) = environment {
        return Err(e);
    }
    let target = match single_target(args) {
        None => return Ok(LifecyclePlan::Done(usage(LifecycleKind::CloudLocalStop, 1))),
        Some(t) => t,
    };
    let mut steps: Vec<PlanStep> = Vec::new();
    if str_eq(target, "all") {
        stop_all(&mut steps);
        assert(steps@.skip(0) =~= steps@);
        return Ok(LifecyclePlan::Run(new_run(steps, Finish::FailedFlag)));
    }
    if let Err(e) = check_service(target) {
        return Err(e);
    }
    steps.push(stop_cloud_service(target, OnFailure::Abort));
    Ok(LifecyclePlan::Run(new_run(steps, Finish::Success)))
}

/// Decides `cloud-local restart`: one service, or `all`, which starts nothing when a stop failed.
pub fn cloud_local_restart(args: &Vec<String>, environment: Result<NamedEnvironment, String>) -> (r: Result<LifecyclePlan, String>)
    ensures
        asks_help(args@) ==> (r matches Ok(p) && is_usage_plan(p, LifecycleKind::CloudLocalRestart, 0)),
        !asks_help(args@) && environment is Err ==> (r matches Err(m) && m@ == environment->Err_0@),
        !asks_help(args@) && environment is Ok ==> ({
            let root = environment->Ok_0.environment.root@;
            if !(args@.len() == 1 && args@[0]@.len() > 0) {
                r matches Ok(p) && is_usage_plan(p, LifecycleKind::CloudLocalRestart, 1)
            } else if args@[0]@ == "all"@ {
                r matches Ok(LifecyclePlan::Run(run)) && run.finish == Finish::Success
                    && run.next == 0 && !run.awaiting && !run.failed && run.code == 0
                    && run.steps@.len() == stop_order().len() + 1 + services().len()
                    && stops_all(run.steps@.take(stop_order().len() as int))
                    && run.steps@[stop_order().len() as int] is Checkpoint
                    && starts_all(run.steps@.skip(stop_order().len() + 1int), root)
            } else if !is_service(args@[0]@) {
                r matches Err(m) && m@ == "unknown service: "@ + args@[0]@
            } else {
                r matches Ok(LifecyclePlan::Run(run)) && run.finish == Finish::Success
                    && run.next == 0 && !run.awaiting && !run.failed && run.code == 0 && run.steps@.len() == 2
                    && is_cloud_stop_step(run.steps@[0], args@[0]@, OnFailure::Abort)
                    && is_cloud_start_step(run.steps@[1], root, args@[0]@, false)
            }
        }),
{
    if is_help(args) {
        return Ok(LifecyclePlan::Done(usage(LifecycleKind::CloudLocalRestart, 0)));
    }
    let environment = match environment {
        Err(e) => return Err(e),
        Ok(e) => e,
    };
    let target = match single_target(args) {
        None => return Ok(LifecyclePlan::Done(usage(LifecycleKind::CloudLocalRestart, 1))),
        Some(t) => t,
    };
    let mut steps: Vec<PlanStep> = Vec::new();
    if str_eq(target, "all") {
        stop_all(&mut steps);
        let ghost stops = steps@;
        steps.push(PlanStep::Checkpoint);
        let ghost checked = steps@;
        start_all(&environment, &mut steps);
        assert(steps@.take(stop_order().len() as int) =~= stops.skip(0));
        assert(stops.skip(0) =~= stops);
        assert(steps@.skip(stop_order().len() + 1int) =~= steps@.skip(checked.len() as int));
        assert(steps@[stop_order().len() as int] == checked[stop_order().len() as int]);
        return Ok(LifecyclePlan::Run(new_run(steps, Finish::Success)));
    }
    if let Err(e) = check_service(target) {
        return Err(e);
    }
    steps.push(stop_cloud_service(target, OnFailure::Abort));
    match start_cloud_service(&environment, target, false) {
        Ok(step) => steps.push(step),
        Err(e) => return Err(e),
    }
    Ok(LifecyclePlan::Run(new_run(steps, Finish::Success)))
}


/// The cloud directory that `operation` on `service` uses, or the diagnostic when no cloud
/// component is bound.
pub open spec fn cloud_operation_dir(environment: (Seq<char>, Seq<char>, Seq<char>), service: Seq<char>, operation: Seq<char>) -> Result<Seq<char>, Seq<char>> {
    match cloud_dir(environment) {
        Some(d) => Ok(d),
        None => Err("cannot "@ + operation + " '"@ + service + "': cloud component is not installed."@),
    }
}

/// Locates the cloud component that `operation` on `service` needs.
pub fn cloud_directory(environment: &Environment, service: &str, operation: &str) -> (r: Result<String, String>)
    ensures
        match r {
            Ok(d) => cloud_operation_dir(environment@, service@, operation@) == Ok::<Seq<char>, Seq<char>>(d@),
            Err(m) => cloud_operation_dir(environment@, service@, operation@) == Err::<Seq<char>, Seq<char>>(m@),
        },
{
    match super::cloud_directory(environment) {
        Some(d) => Ok(d),
        None => {
            let mut m = "cannot ".to_owned();
            m.append(operation);
            m.append(" '");
            m.append(service);
            m.append("': cloud component is not installed.");
            Err(m)
        },
    }
}

/// The settings of an API service: its metrics namespace, its ASGI application, the variable
/// that overrides its port, and its default port.
pub open spec fn api_settings(service: Seq<char>) -> Option<(Seq<char>, Seq<char>, Seq<char>, Seq<char>)> {
    if service == "user"@ {
        Some(("user-api"@, "oqtopus_cloud.user.lambda_function:app"@, "USER_API_PORT"@, "8080"@))
    } else if service == "provider"@ {
        Some(("provider-api"@, "oqtopus_cloud.provider.lambda_function:app"@, "PROVIDER_API_PORT"@, "8888"@))
    } else if service == "admin"@ {
        Some(("admin-api"@, "oqtopus_cloud.admin.lambda_function:app"@, "ADMIN_API_PORT"@, "8889"@))
    } else if service == "user_signup"@ {
        Some(("user_signup-api"@, "oqtopus_cloud.user_signup.lambda_function:app"@, "USER_SIGNUP_API_PORT"@, "8890"@))
    } else {
        None
    }
}

/// The settings of an API service, as [`api_settings`] gives them.
fn api(service: &str) -> (r: Option<(&'static str, &'static str, &'static str, &'static str)>)
    ensures
        match r {
            Some((a, b, c, d)) => api_settings(service@) == Some((a@, b@, c@, d@)),
            None => api_settings(service@) is None,
        },
{
    if str_eq(service, "user") {
        Some(("user-api", "oqtopus_cloud.user.lambda_function:app", "USER_API_PORT", "8080"))
    } else if str_eq(service, "provider") {
        Some(("provider-api", "oqtopus_cloud.provider.lambda_function:app", "PROVIDER_API_PORT", "8888"))
    } else if str_eq(service, "admin") {
        Some(("admin-api", "oqtopus_cloud.admin.lambda_function:app", "ADMIN_API_PORT", "8889"))
    } else if str_eq(service, "user_signup") {
        Some(("user_signup-api", "oqtopus_cloud.user_signup.lambda_function:app", "USER_SIGNUP_API_PORT", "8890"))
    } else {
        None
    }
}

/// The environment variable that overrides the port of an API service; `None` for the other
/// services.
pub fn port_variable(service: &str) -> (r: Option<&'static str>)
    ensures
        match r {
            Some(v) => api_settings(service@) matches Some(s) && s.2 == v@,
            None => api_settings(service@) is None,
        },
{
    match api(service) {
        Some((_, _, v, _)) => Some(v),
        None => None,
    }
}

/// The views of a list of variable assignments.
pub open spec fn pair_views(v: Seq<(String, String)>) -> Seq<(Seq<char>, Seq<char>)> {
    v.map_values(|p: (String, String)| (p.0@, p.1@))
}

/// The `uv` arguments and extra environment that run a PID-managed cloud service from the cloud
/// component at `cloud`, with `port` the value of the service's port variable when it is set;
/// `None` for a service that runs no process.
pub open spec fn cloud_service_command(cloud: Seq<char>, service: Seq<char>, port: Option<Seq<char>>) -> Option<(Seq<Seq<char>>, Seq<(Seq<char>, Seq<char>)>)> {
    if service == "worker"@ {
        Some((
            seq![
                "run"@,
                "--project"@,
                cloud,
                "python"@,
                joined(cloud, "backend/oqtopus_cloud/worker/pending_jobs_updater/local_scheduler.py"@),
            ],
            seq![
                ("POWERTOOLS_METRICS_NAMESPACE"@, "pending-jobs-updater"@),
                ("POWERTOOLS_SERVICE_NAME"@, "pending-jobs-updater"@),
            ],
        ))
    } else {
        match api_settings(service) {
            Some((namespace, module, _, default_port)) => Some((
                seq![
                    "run"@,
                    "--project"@,
                    cloud,
                    "uvicorn"@,
                    module,
                    "--host"@,
                    "0.0.0.0"@,
                    "--port"@,
                    match port {
                        Some(p) => p,
                        None => default_port,
                    },
                    "--reload"@,
                    "--log-level"@,
                    "debug"@,
                ],
                seq![
                    ("POWERTOOLS_METRICS_NAMESPACE"@, namespace),
                    ("POWERTOOLS_SERVICE_NAME"@, namespace),
                ],
            )),
            None => None,
        }
    }
}

/// Builds the command that runs a PID-managed cloud service, given whether the cloud directory
/// (as [`cloud_directory`] locates it for `start`) exists and the value of the service's port
/// variable, when it is set.
pub fn cloud_command(environment: &NamedEnvironment, service: &str, cloud_is_dir: bool, port: Option<&str>) -> (r: Result<ServiceCommand, String>)
    ensures
        match cloud_operation_dir(environment.environment@, service@, "start"@) {
            Err(m) => r matches Err(e) && e@ == m,
            Ok(cloud) => if !cloud_is_dir {
                r matches Err(e) && e@ == "cannot start '"@ + service@ + "': cloud directory not found: "@ + cloud
            } else {
                match cloud_service_command(cloud, service@, opt_view(port)) {
                    Some((args, vars)) => r matches Ok(c) && c.program@ == "uv"@
                        && string_views(c.args@) == args && pair_views(c.environment@) == vars,
                    None => r matches Err(e) && e@ == "unknown service: "@ + service@,
                }
            },
        },
{
    let cloud = match cloud_directory(&environment.environment, service, "start") {
        Ok(d) => d,
        Err(e) => return Err(e),
    };
    if !cloud_is_dir {
        let mut m = "cannot start '".to_owned();
        m.append(service);
        m.append("': cloud directory not found: ");
        m.append(cloud.as_str());
        return Err(m);
    }
    let mut args: Vec<String> = Vec::new();
    args.push("run".to_owned());
    args.push("--project".to_owned());
    args.push(cloud.clone());
    let namespace: &str;
    if str_eq(service, "worker") {
        args.push("python".to_owned());
        args.push(join_path(cloud.as_str(), "backend/oqtopus_cloud/worker/pending_jobs_updater/local_scheduler.py"));
        namespace = "pending-jobs-updater";
    } else {
        match api(service) {
            None => {
                let mut m = "unknown service: ".to_owned();
                m.append(service);
                return Err(m);
            },
            Some((ns, module, _, default_port)) => {
                args.push("uvicorn".to_owned());
                args.push(module.to_owned());
                args.push("--host".to_owned());
                args.push("0.0.0.0".to_owned());
                args.push("--port".to_owned());
                match port {
                    Some(p) => args.push(p.to_owned()),
                    None => args.push(default_port.to_owned()),
                }
                args.push("--reload".to_owned());
                args.push("--log-level".to_owned());
                args.push("debug".to_owned());
                namespace = ns;
            },
        }
    }
    let mut command = ServiceCommand::uv(args);
    command.environment.push(("POWERTOOLS_METRICS_NAMESPACE".to_owned(), namespace.to_owned()));
    command.environment.push(("POWERTOOLS_SERVICE_NAME".to_owned(), namespace.to_owned()));
    proof {
        let spec_cmd = cloud_service_command(cloud@, service@, opt_view(port));
        assert(string_views(command.args@) =~= spec_cmd->Some_0.0);
        assert(pair_views(command.environment@) =~= spec_cmd->Some_0.1);
    }
    Ok(command)
}


/// Words after the target of `cloud-local start`, other than a `--foreground` flag right after
/// it, are ignored: deciding `args` gives the same result as deciding its first word alone.
pub proof fn law_start_ignores_trailing_words(
    args: Seq<String>,
    environment: Result<NamedEnvironment, String>,
    r: Result<LifecyclePlan, String>,
    first_only: Result<LifecyclePlan, String>,
)
    requires
        args.len() >= 2,
        args[1]@ != "--foreground"@,
        start_decided(args, environment, r),
        start_decided(args.take(1), environment, first_only),
    ensures
        same_plan(r, first_only),
{
    let one = args.take(1);
    assert(one[0] == args[0]);
    assert(asks_help(args) == asks_help(one));
    if !asks_help(args) && environment is Ok && args[0]@.len() > 0 {
        let root = environment->Ok_0.environment.root@;
        if let (Ok(LifecyclePlan::Run(a)), Ok(LifecyclePlan::Run(b))) = (r, first_only) {
            assert forall|i: int| 0 <= i < a.steps@.len() implies same_step(
                #[trigger] a.steps@[i],
                b.steps@[i],
            ) by {
                if args[0]@ == "all"@ {
                    assert(is_cloud_start_step(a.steps@[i], root, services()[i], false));
                    assert(is_cloud_start_step(b.steps@[i], root, services()[i], false));
                }
            }
        }
    }
}
} // verus!
