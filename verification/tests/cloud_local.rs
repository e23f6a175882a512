use oqtopus::cloud_local::database::{db_step, new_db_run, DbEvent, DbStep, DbWork};
use oqtopus::cloud_local::lifecycle::{cloud_command, cloud_local_start, cloud_local_stop, port_variable, start_cloud_service};
use oqtopus::cloud_local::operations::{cloud_local_install, cloud_local_uninstall};
use oqtopus::cloud_local::versions::cloud_local_versions;
use oqtopus::environment::{validate_named_environment, NamedEnvironment};
use oqtopus::lifecycle::{LifecyclePlan, PlanStep, ServiceAction};
use oqtopus::operations::OperationPlan;
use oqtopus::versions::VersionsPlan;

fn strings(words: &[&str]) -> Vec<String> {
    words.iter().map(|w| w.to_string()).collect()
}

fn environment(extra: &str) -> NamedEnvironment {
    let metadata = format!(
        "template=cloud-local\nenvironment_name=demo\nenvironment_root=/env\ninstall_root=/releases\n{extra}"
    );
    validate_named_environment("cloud-local", "/env", Some(&metadata)).ok().expect("valid environment")
}

#[test]
fn cloud_command_runs_apis_with_their_ports() {
    let env = environment("cloud_local_cloud_version=v1.0.0\n");
    let command = cloud_command(&env, "user", true, None).ok().expect("command");
    assert_eq!(command.program, "uv");
    assert_eq!(command.args, strings(&[
        "run", "--project", "/releases/cloud-v1.0.0", "uvicorn",
        "oqtopus_cloud.user.lambda_function:app", "--host", "0.0.0.0", "--port", "8080",
        "--reload", "--log-level", "debug",
    ]));
    assert_eq!(command.environment[0], ("POWERTOOLS_METRICS_NAMESPACE".to_owned(), "user-api".to_owned()));
    let command = cloud_command(&env, "provider", true, Some("9999")).ok().expect("command");
    assert_eq!(command.args[8], "9999");
    assert_eq!(port_variable("admin"), Some("ADMIN_API_PORT"));
    assert_eq!(port_variable("worker"), None);
    let worker = cloud_command(&env, "worker", true, None).ok().expect("worker");
    assert_eq!(worker.args[4], "/releases/cloud-v1.0.0/backend/oqtopus_cloud/worker/pending_jobs_updater/local_scheduler.py");
    assert_eq!(
        cloud_command(&env, "user", false, None).err().as_deref(),
        Some("cannot start 'user': cloud directory not found: /releases/cloud-v1.0.0")
    );
    assert_eq!(
        cloud_command(&environment(""), "user", true, None).err().as_deref(),
        Some("cannot start 'user': cloud component is not installed.")
    );
    assert_eq!(cloud_command(&env, "db", true, None).err().as_deref(), Some("unknown service: db"));
}

#[test]
fn cloud_local_lifecycle_plans() {
    assert_eq!(
        cloud_local_start(&strings(&["all", "--foreground"]), Ok(environment(""))).err().as_deref(),
        Some("--foreground is not supported for 'all'.")
    );
    assert_eq!(
        cloud_local_stop(&strings(&["nope"]), Ok(environment(""))).err().as_deref(),
        Some("unknown service: nope")
    );
    match cloud_local_stop(&strings(&["all"]), Ok(environment(""))) {
        Ok(LifecyclePlan::Run(run)) => assert_eq!(run.steps.len(), 6),
        _ => panic!("stop all was not planned"),
    }
}

#[test]
fn cloud_local_operations_and_versions() {
    match cloud_local_install(&strings(&["all"]), Ok(environment(""))) {
        Ok(OperationPlan::Install(reqs)) => assert_eq!(reqs.len(), 3),
        _ => panic!("install all was not planned"),
    }
    assert_eq!(
        cloud_local_install(&strings(&["cloud", "--skip-sse-build"]), Ok(environment(""))).err().as_deref(),
        Some("unknown install option: --skip-sse-build")
    );
    match cloud_local_uninstall(&strings(&["frontend", "v1"]), Ok(environment(""))) {
        Ok(OperationPlan::Uninstall(c, v)) => {
            assert_eq!(c.name, "frontend");
            assert_eq!(v, "v1");
        },
        _ => panic!("uninstall was not planned"),
    }
    match cloud_local_versions(&strings(&["admin"])) {
        Ok(VersionsPlan::List(c)) => assert_eq!(c.repository, "oqtopus-team/oqtopus-admin"),
        _ => panic!("versions were not planned"),
    }
    assert_eq!(cloud_local_versions(&strings(&["x"])).err().as_deref(), Some("unknown component: x"));
}

fn flag(run: &mut oqtopus::cloud_local::database::DbRun, value: bool) -> DbStep {
    db_step(run, DbEvent::Flag(value))
}

#[test]
fn database_start_waits_migrates_and_seeds() {
    let mut run = new_db_run(environment("cloud_local_cloud_version=v1.0.0\n"), false);
    assert!(matches!(db_step(&mut run, DbEvent::Done), DbStep::Perform(_, _, DbWork::EnsureCommand(ref c)) if c == "docker"));
    assert!(matches!(flag(&mut run, true), DbStep::Perform(_, _, DbWork::EnsureCommand(ref c)) if c == "uv"));
    assert!(matches!(flag(&mut run, true), DbStep::Perform(_, _, DbWork::IsFile(ref f)) if f == "/releases/cloud-v1.0.0/backend/compose.yaml"));
    assert!(matches!(flag(&mut run, true), DbStep::Perform(_, _, DbWork::ComposeRunning(ref p, _)) if p == "demo"));
    match flag(&mut run, false) {
        DbStep::Perform(lines, None, DbWork::ComposeUp(_, _)) => assert_eq!(lines, strings(&["Starting db"])),
        _ => panic!("containers were not started"),
    }
    assert!(matches!(flag(&mut run, true), DbStep::Perform(_, _, DbWork::ProbeDb(_, _))));
    for _ in 0..59 {
        assert!(matches!(flag(&mut run, false), DbStep::Perform(_, _, DbWork::Sleep(2))));
        assert!(matches!(db_step(&mut run, DbEvent::Done), DbStep::Perform(_, _, DbWork::ProbeDb(_, _))));
    }
    match flag(&mut run, false) {
        DbStep::Finish(Err(m)) => assert_eq!(m, "timed out waiting for db to become ready."),
        _ => panic!("sixty failed probes did not time out"),
    }
}

#[test]
fn database_migrations_retry_five_times() {
    let mut run = new_db_run(environment("cloud_local_cloud_version=v1.0.0\n"), false);
    db_step(&mut run, DbEvent::Done);
    flag(&mut run, true);
    flag(&mut run, true);
    flag(&mut run, true);
    flag(&mut run, true);
    flag(&mut run, true);
    assert!(matches!(flag(&mut run, false), DbStep::Perform(_, _, DbWork::ConnectPort)));
    match flag(&mut run, true) {
        DbStep::Perform(lines, _, DbWork::RunUv(p, cwd, args)) => {
            assert_eq!(lines, strings(&["db ready, applying migrations"]));
            assert_eq!(p, "/releases/cloud-v1.0.0");
            assert_eq!(cwd, "/releases/cloud-v1.0.0/backend");
            assert_eq!(args, strings(&["alembic", "upgrade", "head"]));
        },
        _ => panic!("migrations did not run"),
    }
    for attempt in 1..5 {
        match flag(&mut run, false) {
            DbStep::Perform(_, Some(w), DbWork::Sleep(2)) => assert_eq!(
                w,
                format!("Warning: alembic upgrade head failed; retrying ({}/5) in 2s...", attempt + 1)
            ),
            _ => panic!("failed migration was not retried"),
        }
        assert!(matches!(db_step(&mut run, DbEvent::Done), DbStep::Perform(_, None, DbWork::RunUv(_, _, _))));
    }
    match flag(&mut run, false) {
        DbStep::Finish(Err(m)) => assert_eq!(m, "failed to run alembic upgrade head."),
        _ => panic!("five failures did not end the start"),
    }
}

#[test]
fn database_stop_brings_the_project_down() {
    let mut run = new_db_run(environment(""), true);
    db_step(&mut run, DbEvent::Done);
    match flag(&mut run, true) {
        DbStep::Finish(Err(m)) => assert_eq!(m, "cannot stop 'db': cloud component is not installed."),
        _ => panic!("unbound cloud was not an error"),
    }
    let mut run = new_db_run(environment("cloud_local_cloud_version=branch:main\n"), true);
    db_step(&mut run, DbEvent::Done);
    assert!(matches!(flag(&mut run, true), DbStep::Perform(_, _, DbWork::IsFile(ref f)) if f == "/env/cloud/backend/compose.yaml"));
    assert!(matches!(flag(&mut run, true), DbStep::Perform(_, _, DbWork::ComposeDown(_, _))));
    match flag(&mut run, true) {
        DbStep::Perform(lines, _, DbWork::Nothing) => assert_eq!(lines, strings(&["Stopped db"])),
        _ => panic!("stop did not finish"),
    }
    assert!(matches!(db_step(&mut run, DbEvent::Done), DbStep::Finish(Ok(()))));
}

use oqtopus::cloud_local::lifecycle::cloud_local_restart;
use oqtopus::lifecycle::{lifecycle_next, RunAction, StepEvent};

#[test]
fn restart_all_starts_nothing_after_a_failed_stop() {
    let mut run = match cloud_local_restart(&strings(&["all"]), Ok(environment("cloud_local_cloud_version=v1\n"))) {
        Ok(LifecyclePlan::Run(run)) => run,
        _ => panic!("restart all was not planned"),
    };
    assert!(matches!(lifecycle_next(&mut run, None), RunAction::Perform(0)));
    match lifecycle_next(&mut run, Some(StepEvent::Failed("user failed".to_owned()))) {
        RunAction::Report(m) => assert_eq!(m, "user failed"),
        _ => panic!("a failed stop was not reported"),
    }
    let mut performed = Vec::new();
    let mut action = lifecycle_next(&mut run, None);
    loop {
        match action {
            RunAction::Perform(i) => {
                performed.push(i);
                action = lifecycle_next(&mut run, Some(StepEvent::Stopped));
            },
            RunAction::Finish(result) => {
                assert_eq!(result.ok().expect("restart ends").exit_code(), 1);
                break;
            },
            RunAction::Report(_) => panic!("unexpected report"),
        }
    }
    assert_eq!(performed, vec![1, 2, 3, 4, 5]);
}

#[test]
fn stop_all_attempts_every_service_and_reports_failures() {
    let mut run = match cloud_local_stop(&strings(&["all"]), Ok(environment(""))) {
        Ok(LifecyclePlan::Run(run)) => run,
        _ => panic!("stop all was not planned"),
    };
    let mut performed = Vec::new();
    let mut reported = Vec::new();
    let mut event = None;
    loop {
        match lifecycle_next(&mut run, event.take()) {
            RunAction::Perform(i) => {
                performed.push(i);
                event = Some(if i % 2 == 0 { StepEvent::Failed(format!("stop {i} failed")) } else { StepEvent::Stopped });
            },
            RunAction::Report(m) => reported.push(m),
            RunAction::Finish(result) => {
                assert_eq!(result.ok().expect("stop all finishes").exit_code(), 1);
                break;
            },
        }
    }
    assert_eq!(performed, vec![0, 1, 2, 3, 4, 5]);
    assert_eq!(reported, vec!["stop 0 failed", "stop 2 failed", "stop 4 failed"]);
}

#[test]
fn start_cloud_service_refuses_an_unknown_service() {
    let env = environment("");
    assert_eq!(start_cloud_service(&env, "nope", false).err().as_deref(), Some("unknown service: nope"));
    assert_eq!(start_cloud_service(&env, "", true).err().as_deref(), Some("unknown service: "));
    assert!(matches!(
        start_cloud_service(&env, "db", false),
        Ok(PlanStep::Act(ServiceAction::StartDatabase, _))
    ));
    match start_cloud_service(&env, "user", true) {
        Ok(PlanStep::Act(ServiceAction::StartProcess { service, foreground, log, .. }, _)) => {
            assert_eq!(service, "user");
            assert!(foreground);
            assert_eq!(log.as_deref(), Some("/env/logs/user/service.log"));
        }
        _ => panic!("user was not started"),
    }
}

fn started_service(plan: Result<LifecyclePlan, String>) -> Option<(String, bool)> {
    match plan {
        Ok(LifecyclePlan::Run(run)) if run.steps.len() == 1 => match &run.steps[0] {
            PlanStep::Act(ServiceAction::StartProcess { service, foreground, .. }, _) => {
                Some((service.clone(), *foreground))
            }
            _ => None,
        },
        _ => None,
    }
}

#[test]
fn cloud_local_start_ignores_words_after_the_service() {
    let env = || Ok(environment(""));
    assert_eq!(started_service(cloud_local_start(&strings(&["user", "extra", "words"]), env())), Some(("user".to_string(), false)));
    assert_eq!(started_service(cloud_local_start(&strings(&["user"]), env())), Some(("user".to_string(), false)));
    assert_eq!(started_service(cloud_local_start(&strings(&["user", "--foreground", "x"]), env())), Some(("user".to_string(), true)));
    assert_eq!(
        cloud_local_start(&strings(&["nope", "extra"]), env()).err().as_deref(),
        cloud_local_start(&strings(&["nope"]), env()).err().as_deref()
    );
}
