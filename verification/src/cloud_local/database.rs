//! Starting and stopping the cloud-local database, which runs as Docker Compose containers:
//! the decisions, as a state machine driven by the results of the work it hands out.

use vstd::prelude::*;
use crate::environment::{Environment, NamedEnvironment};
use crate::numbers::{decimal, push_decimal};
use crate::chars::{chars_of, string_of};
use crate::paths::{join_path, joined};
use super::lifecycle::{cloud_directory, cloud_operation_dir};

verus! {

/// One unit of database work.
pub enum DbWork {
    /// No work: only the progress lines.
    Nothing,
    /// Report whether a program is on `PATH` (`Flag`).
    EnsureCommand(String),
    /// Report whether this is a file (`Flag`).
    IsFile(String),
    /// Report whether the `db` service of the Compose project runs (`Flag`).
    ComposeRunning(String, String),
    /// Start the `db`, `minio`, and `mc` services of the Compose project (`Flag`: success).
    ComposeUp(String, String),
    /// Run `SELECT 1` against the database in its container (`Flag`: success).
    ProbeDb(String, String),
    /// Report whether the test hook declares the database port reachable (`Flag`).
    PortHook,
    /// Try to connect to `127.0.0.1:3306` (`Flag`: connected).
    ConnectPort,
    /// Wait this many seconds (`Done`).
    Sleep(u64),
    /// Run `uv run --project <project> <args>` in `cwd`, with the settings of the environment's
    /// `config/.env` and without `VIRTUAL_ENV` (`Flag`: success).
    RunUv(String, String, Vec<String>),
    /// Stop the Compose project (`Flag`: success).
    ComposeDown(String, String),
}

/// The result of the action handed out last.
pub enum DbEvent {
    Done,
    Flag(bool),
    /// The progress lines could not be written; nothing else was done.
    WriteFailed(String),
    /// The warning could not be written; nothing else was done.
    WarnFailed(String),
}

/// What the caller does next.
pub enum DbStep {
    /// Print the progress lines on the output stream and the warning, if any, on the error
    /// stream; then do the work and report its result.
    Perform(Vec<String>, Option<String>, DbWork),
    /// The database work is over.
    Finish(Result<(), String>),
}

/// Where a database run stands: which action's result it awaits.
#[derive(Clone, Copy, PartialEq, Eq, Structural)]
pub enum DbStage {
    Begin,
    Docker,
    Uv,
    Compose,
    Running,
    Up,
    Probe,
    ProbeWait,
    Hook,
    Connect,
    ConnectWait,
    Migrate,
    MigrateWait,
    Seed,
    SeedWait,
    InitCheck,
    Init,
    StopDocker,
    StopCompose,
    Down,
    Closing,
    Finished,
}

/// Starting or stopping the database of a cloud-local environment.
pub struct DbRun {
    pub environment: NamedEnvironment,
    /// Stopping rather than starting.
    pub stop: bool,
    pub stage: DbStage,
    /// The attempt in progress, counted from 0 for probes and from 1 for `uv` runs.
    pub attempt: u32,
    pub cloud: String,
}

pub enum DbWorkView {
    Nothing,
    EnsureCommand(Seq<char>),
    IsFile(Seq<char>),
    ComposeRunning(Seq<char>, Seq<char>),
    ComposeUp(Seq<char>, Seq<char>),
    ProbeDb(Seq<char>, Seq<char>),
    PortHook,
    ConnectPort,
    Sleep(u64),
    RunUv(Seq<char>, Seq<char>, Seq<Seq<char>>),
    ComposeDown(Seq<char>, Seq<char>),
}

impl View for DbWork {
    type V = DbWorkView;

    open spec fn view(&self) -> DbWorkView {
        match self {
            DbWork::Nothing => DbWorkView::Nothing,
            DbWork::EnsureCommand(a) => DbWorkView::EnsureCommand(a@),
            DbWork::IsFile(a) => DbWorkView::IsFile(a@),
            DbWork::ComposeRunning(a, b) => DbWorkView::ComposeRunning(a@, b@),
            DbWork::ComposeUp(a, b) => DbWorkView::ComposeUp(a@, b@),
            DbWork::ProbeDb(a, b) => DbWorkView::ProbeDb(a@, b@),
            DbWork::PortHook => DbWorkView::PortHook,
            DbWork::ConnectPort => DbWorkView::ConnectPort,
            DbWork::Sleep(s) => DbWorkView::Sleep(*s),
            DbWork::RunUv(a, b, c) => DbWorkView::RunUv(a@, b@, c@.map_values(|s: String| s@)),
            DbWork::ComposeDown(a, b) => DbWorkView::ComposeDown(a@, b@),
        }
    }
}

pub enum DbStepView {
    Perform(Seq<Seq<char>>, Option<Seq<char>>, DbWorkView),
    Finish(Result<(), Seq<char>>),
}

impl View for DbStep {
    type V = DbStepView;

    open spec fn view(&self) -> DbStepView {
        match self {
            DbStep::Perform(lines, warning, work) => DbStepView::Perform(
                lines@.map_values(|s: String| s@),
                match warning {
                    Some(w) => Some(w@),
                    None => None,
                },
                work@,
            ),
            DbStep::Finish(Ok(())) => DbStepView::Finish(Ok(())),
            DbStep::Finish(Err(m)) => DbStepView::Finish(Err(m@)),
        }
    }
}

pub struct DbView {
    pub environment: (Seq<char>, Seq<char>, Seq<char>),
    pub name: Seq<char>,
    pub stop: bool,
    pub stage: DbStage,
    pub attempt: int,
    pub cloud: Seq<char>,
}

impl View for DbRun {
    type V = DbView;

    open spec fn view(&self) -> DbView {
        DbView {
            environment: self.environment.environment@,
            name: self.environment.name@,
            stop: self.stop,
            stage: self.stage,
            attempt: self.attempt as int,
            cloud: self.cloud@,
        }
    }
}

/// The Compose file of the cloud component at `cloud`.
pub open spec fn compose_file(cloud: Seq<char>) -> Seq<char> {
    joined(cloud, "backend/compose.yaml"@)
}

/// The probes of database readiness, two seconds apart.
pub open spec fn ready_probes() -> int {
    60
}

/// The attempts to reach the database port, one second apart.
pub open spec fn port_attempts() -> int {
    30
}

/// The attempts of each `uv` setup step, two seconds apart.
pub open spec fn uv_attempts() -> int {
    5
}

/// The migration step.
pub open spec fn migrate_args() -> Seq<Seq<char>> {
    seq!["alembic"@, "upgrade"@, "head"@]
}

/// The seeding step.
pub open spec fn seed_args() -> Seq<Seq<char>> {
    seq!["python"@, "scripts/seed.py"@]
}

/// The warning before retrying a `uv` step after failed attempt `attempt`.
pub open spec fn retry_warning(label: Seq<char>, attempt: int) -> Seq<char> {
    "Warning: "@ + label + " failed; retrying ("@ + decimal((attempt + 1) as nat) + "/5) in 2s..."@
}

/// The run ends with `result`.
pub open spec fn db_end(r: DbView, result: Result<(), Seq<char>>) -> (DbView, DbStepView) {
    (DbView { stage: DbStage::Finished, ..r }, DbStepView::Finish(result))
}

/// The run moves to `stage` at `attempt`, handing out `lines`, `warning`, and `work`.
pub open spec fn db_go(r: DbView, stage: DbStage, attempt: int, lines: Seq<Seq<char>>, warning: Option<Seq<char>>, work: DbWorkView) -> (DbView, DbStepView) {
    (DbView { stage, attempt, ..r }, DbStepView::Perform(lines, warning, work))
}

/// The first `uv` run of a step.
pub open spec fn uv_step(r: DbView, stage: DbStage, lines: Seq<Seq<char>>, args: Seq<Seq<char>>) -> (DbView, DbStepView) {
    db_go(r, stage, 1, lines, None, DbWorkView::RunUv(r.cloud, joined(r.cloud, "backend"@), args))
}

/// The decision after the result `e` of the action handed out last.
pub open spec fn db_next(r: DbView, e: DbEvent) -> (DbView, DbStepView) {
    let yes = e matches DbEvent::Flag(true);
    let compose = compose_file(r.cloud);
    let backend = joined(r.cloud, "backend"@);
    let init = joined(r.cloud, "backend/storage/init_storage.py"@);
    match e {
        DbEvent::WriteFailed(m) if r.stage != DbStage::Begin => db_end(r, Err("failed to write progress: "@ + m@)),
        DbEvent::WarnFailed(m) if r.stage != DbStage::Begin => db_end(r, Err("failed to write warning: "@ + m@)),
        _ => match r.stage {
            DbStage::Begin => if r.stop {
                db_go(r, DbStage::StopDocker, 0, seq![], None, DbWorkView::EnsureCommand("docker"@))
            } else {
                db_go(r, DbStage::Docker, 0, seq![], None, DbWorkView::EnsureCommand("docker"@))
            },
            DbStage::Docker => if yes {
                db_go(r, DbStage::Uv, 0, seq![], None, DbWorkView::EnsureCommand("uv"@))
            } else {
                db_end(r, Err("'docker' is required but was not found on PATH."@))
            },
            DbStage::Uv => if yes {
                match cloud_operation_dir(r.environment, "db"@, "start"@) {
                    Err(m) => db_end(r, Err(m)),
                    Ok(cloud) => db_go(DbView { cloud, ..r }, DbStage::Compose, 0, seq![], None, DbWorkView::IsFile(compose_file(cloud))),
                }
            } else {
                db_end(r, Err("'uv' is required but was not found on PATH."@))
            },
            DbStage::Compose => if yes {
                db_go(r, DbStage::Running, 0, seq![], None, DbWorkView::ComposeRunning(r.name, compose))
            } else {
                db_end(r, Err("cannot start 'db': compose.yaml not found in "@ + backend))
            },
            DbStage::Running => if yes {
                db_go(r, DbStage::Probe, 0, seq!["db is already running; skipping container startup."@, "Waiting for db to be ready"@], None, DbWorkView::ProbeDb(r.name, compose))
            } else {
                db_go(r, DbStage::Up, 0, seq!["Starting db"@], None, DbWorkView::ComposeUp(r.name, compose))
            },
            DbStage::Up => if yes {
                db_go(r, DbStage::Probe, 0, seq!["Waiting for db to be ready"@], None, DbWorkView::ProbeDb(r.name, compose))
            } else {
                db_end(r, Err("failed to start db with docker compose."@))
            },
            DbStage::Probe => if yes {
                db_go(r, DbStage::Hook, 0, seq!["Waiting for db port to be reachable from the host"@], None, DbWorkView::PortHook)
            } else if r.attempt + 1 < ready_probes() {
                db_go(r, DbStage::ProbeWait, r.attempt, seq![], None, DbWorkView::Sleep(2))
            } else {
                db_end(r, Err("timed out waiting for db to become ready."@))
            },
            DbStage::ProbeWait => db_go(r, DbStage::Probe, r.attempt + 1, seq![], None, DbWorkView::ProbeDb(r.name, compose)),
            DbStage::Hook => if yes {
                uv_step(r, DbStage::Migrate, seq!["db ready, applying migrations"@], migrate_args())
            } else {
                db_go(r, DbStage::Connect, 0, seq![], None, DbWorkView::ConnectPort)
            },
            DbStage::Connect => if yes {
                uv_step(r, DbStage::Migrate, seq!["db ready, applying migrations"@], migrate_args())
            } else if r.attempt + 1 < port_attempts() {
                db_go(r, DbStage::ConnectWait, r.attempt, seq![], None, DbWorkView::Sleep(1))
            } else {
                db_end(r, Err("timed out waiting for db port 127.0.0.1:3306 to be reachable from the host."@))
            },
            DbStage::ConnectWait => db_go(r, DbStage::Connect, r.attempt + 1, seq![], None, DbWorkView::ConnectPort),
            DbStage::Migrate => if yes {
                uv_step(r, DbStage::Seed, seq!["Seeding db"@], seed_args())
            } else if r.attempt < uv_attempts() {
                db_go(r, DbStage::MigrateWait, r.attempt, seq![], Some(retry_warning("alembic upgrade head"@, r.attempt)), DbWorkView::Sleep(2))
            } else {
                db_end(r, Err("failed to run alembic upgrade head."@))
            },
            DbStage::MigrateWait => db_go(r, DbStage::Migrate, r.attempt + 1, seq![], None, DbWorkView::RunUv(r.cloud, backend, migrate_args())),
            DbStage::Seed => if yes {
                db_go(r, DbStage::InitCheck, 0, seq![], None, DbWorkView::IsFile(init))
            } else if r.attempt < uv_attempts() {
                db_go(r, DbStage::SeedWait, r.attempt, seq![], Some(retry_warning("scripts/seed.py"@, r.attempt)), DbWorkView::Sleep(2))
            } else {
                db_end(r, Err("failed to run scripts/seed.py."@))
            },
            DbStage::SeedWait => db_go(r, DbStage::Seed, r.attempt + 1, seq![], None, DbWorkView::RunUv(r.cloud, backend, seed_args())),
            DbStage::InitCheck => if yes {
                db_go(r, DbStage::Init, 0, seq![], None, DbWorkView::RunUv(r.cloud, r.environment.0, seq!["python"@, init]))
            } else {
                db_go(r, DbStage::Closing, 0, seq!["Started db"@], None, DbWorkView::Nothing)
            },
            DbStage::Init => if yes {
                db_go(r, DbStage::Closing, 0, seq!["Started db"@], None, DbWorkView::Nothing)
            } else {
                db_end(r, Err("failed to run storage/init_storage.py."@))
            },
            DbStage::StopDocker => if yes {
                match cloud_operation_dir(r.environment, "db"@, "stop"@) {
                    Err(m) => db_end(r, Err(m)),
                    Ok(cloud) => db_go(DbView { cloud, ..r }, DbStage::StopCompose, 0, seq![], None, DbWorkView::IsFile(compose_file(cloud))),
                }
            } else {
                db_end(r, Err("'docker' is required but was not found on PATH."@))
            },
            DbStage::StopCompose => if yes {
                db_go(r, DbStage::Down, 0, seq!["Stopping db"@], None, DbWorkView::ComposeDown(r.name, compose))
            } else {
                db_end(r, Err("cannot stop 'db': compose.yaml not found in "@ + backend))
            },
            DbStage::Down => if yes {
                db_go(r, DbStage::Closing, 0, seq!["Stopped db"@], None, DbWorkView::Nothing)
            } else {
                db_end(r, Err("failed to stop db with docker compose."@))
            },
            DbStage::Closing => db_end(r, Ok(())),
            DbStage::Finished => (r, DbStepView::Finish(Err(seq![]))),
        },
    }
}

/// The invariant of a database run between two steps: attempts stay within their bounds.
pub open spec fn db_wf(r: DbView) -> bool {
    &&& (r.stage == DbStage::Probe || r.stage == DbStage::ProbeWait) ==> 0 <= r.attempt < ready_probes()
    &&& (r.stage == DbStage::Connect || r.stage == DbStage::ConnectWait) ==> 0 <= r.attempt < port_attempts()
    &&& (r.stage == DbStage::Migrate || r.stage == DbStage::MigrateWait || r.stage == DbStage::Seed
        || r.stage == DbStage::SeedWait) ==> 1 <= r.attempt <= uv_attempts()
    &&& (r.stage == DbStage::MigrateWait || r.stage == DbStage::SeedWait) ==> r.attempt < uv_attempts()
    &&& (r.stage == DbStage::ProbeWait) ==> r.attempt + 1 < ready_probes()
    &&& (r.stage == DbStage::ConnectWait) ==> r.attempt + 1 < port_attempts()
}


/// Starts a database run: starting it, or stopping it when `stop` is set.
pub fn new_db_run(environment: NamedEnvironment, stop: bool) -> (r: DbRun)
    ensures
        r.environment == environment,
        r.stop == stop,
        r.stage == DbStage::Begin,
        db_wf(r@),
{
    DbRun { environment, stop, stage: DbStage::Begin, attempt: 0, cloud: String::new() }
}

fn lines0() -> (r: Vec<String>)
    ensures
        r@.map_values(|s: String| s@) == Seq::<Seq<char>>::empty(),
{
    let r: Vec<String> = Vec::new();
    assert(r@.map_values(|s: String| s@) =~= Seq::<Seq<char>>::empty());
    r
}

fn lines1(a: &str) -> (r: Vec<String>)
    ensures
        r@.map_values(|s: String| s@) == seq![a@],
{
    let r = vec![a.to_owned()];
    assert(r@.map_values(|s: String| s@) =~= seq![a@]);
    r
}

fn go(run: &mut DbRun, stage: DbStage, attempt: u32, lines: Vec<String>, warning: Option<String>, work: DbWork) -> (r: DbStep)
    ensures
        (final(run)@, r@) == db_go(old(run)@, stage, attempt as int, lines@.map_values(|s: String| s@), match warning {
            Some(w) => Some(w@),
            None => None,
        }, work@),
        final(run).environment == old(run).environment,
{
    run.stage = stage;
    run.attempt = attempt;
    DbStep::Perform(lines, warning, work)
}

fn end(run: &mut DbRun, result: Result<(), String>) -> (r: DbStep)
    ensures
        (final(run)@, r@) == db_end(old(run)@, match result {
            Ok(()) => Ok(()),
            Err(m) => Err(m@),
        }),
{
    run.stage = DbStage::Finished;
    DbStep::Finish(result)
}

fn strings(parts: &[&str]) -> (r: Vec<String>)
    ensures
        r@.map_values(|s: String| s@) == parts@.map_values(|p: &str| p@),
{
    let mut r: Vec<String> = Vec::new();
    let mut i: usize = 0;
    while i < parts.len()
        invariant
            i <= parts@.len(),
            r@.map_values(|s: String| s@) == parts@.take(i as int).map_values(|p: &str| p@),
        decreases parts@.len() - i,
    {
        r.push(parts[i].to_owned());
        assert(parts@.take(i + 1).map_values(|p: &str| p@) =~= parts@.take(i as int).map_values(
            |p: &str| p@,
        ).push(parts@[i as int]@));
        assert(r@.map_values(|s: String| s@) =~= parts@.take(i + 1).map_values(|p: &str| p@));
        i = i + 1;
    }
    assert(parts@.take(parts@.len() as int) =~= parts@);
    r
}

fn migrate() -> (r: Vec<String>)
    ensures
        r@.map_values(|s: String| s@) == migrate_args(),
{
    let parts = ["alembic", "upgrade", "head"];
    let r = strings(&parts);
    assert(parts@.map_values(|p: &str| p@) =~= migrate_args());
    r
}

fn seed() -> (r: Vec<String>)
    ensures
        r@.map_values(|s: String| s@) == seed_args(),
{
    let parts = ["python", "scripts/seed.py"];
    let r = strings(&parts);
    assert(parts@.map_values(|p: &str| p@) =~= seed_args());
    r
}

fn warning(label: &str, attempt: u32) -> (r: String)
    requires
        attempt < 5,
    ensures
        r@ == retry_warning(label@, attempt as int),
{
    let mut out: Vec<char> = chars_of("Warning: ");
    crate::chars::append_str(&mut out, label);
    crate::chars::append_str(&mut out, " failed; retrying (");
    push_decimal(&mut out, (attempt + 1) as u64);
    crate::chars::append_str(&mut out, "/5) in 2s...");
    string_of(&out)
}

fn cat(a: &str, b: &str) -> (r: String)
    ensures
        r@ == a@ + b@,
{
    let mut m = a.to_owned();
    m.append(b);
    m
}

/// Advances a database run after the result of its last handed-out action (any event for the
/// first call) and hands out what comes next.
#[verifier::rlimit(40)]
pub fn db_step(run: &mut DbRun, event: DbEvent) -> (r: DbStep)
    requires
        db_wf(old(run)@),
        old(run).stage != DbStage::Finished,
    ensures
        (final(run)@, r@) == db_next(old(run)@, event),
        db_wf(final(run)@),
{
    if run.stage != DbStage::Begin {
        match &event {
            DbEvent::WriteFailed(m) => return end(run, Err(cat("failed to write progress: ", m.as_str()))),
            DbEvent::WarnFailed(m) => return end(run, Err(cat("failed to write warning: ", m.as_str()))),
            _ => {},
        }
    }
    let yes = match &event {
        DbEvent::Flag(b) => *b,
        _ => false,
    };
    let name = run.environment.name.clone();
    let compose = join_path(run.cloud.as_str(), "backend/compose.yaml");
    let backend = join_path(run.cloud.as_str(), "backend");
    match run.stage {
        DbStage::Begin => {
            let stage = if run.stop { DbStage::StopDocker } else { DbStage::Docker };
            go(run, stage, 0, lines0(), None, DbWork::EnsureCommand("docker".to_owned()))
        },
        DbStage::Docker | DbStage::StopDocker => {
            if !yes {
                return end(run, Err("'docker' is required but was not found on PATH.".to_owned()));
            }
            if run.stage == DbStage::Docker {
                return go(run, DbStage::Uv, 0, lines0(), None, DbWork::EnsureCommand("uv".to_owned()));
            }
            match cloud_directory(&run.environment.environment, "db", "stop") {
                Err(m) => end(run, Err(m)),
                Ok(cloud) => {
                    let file = join_path(cloud.as_str(), "backend/compose.yaml");
                    run.cloud = cloud;
                    go(run, DbStage::StopCompose, 0, lines0(), None, DbWork::IsFile(file))
                },
            }
        },
        DbStage::Uv => {
            if !yes {
                return end(run, Err("'uv' is required but was not found on PATH.".to_owned()));
            }
            match cloud_directory(&run.environment.environment, "db", "start") {
                Err(m) => end(run, Err(m)),
                Ok(cloud) => {
                    let file = join_path(cloud.as_str(), "backend/compose.yaml");
                    run.cloud = cloud;
                    go(run, DbStage::Compose, 0, lines0(), None, DbWork::IsFile(file))
                },
            }
        },
        DbStage::Compose => {
            if yes {
                go(run, DbStage::Running, 0, lines0(), None, DbWork::ComposeRunning(name, compose))
            } else {
                end(run, Err(cat("cannot start 'db': compose.yaml not found in ", backend.as_str())))
            }
        },
        DbStage::Running => {
            if yes {
                let lines = strings(&["db is already running; skipping container startup.", "Waiting for db to be ready"]);
                proof {
                    let parts = ["db is already running; skipping container startup.", "Waiting for db to be ready"];
                    assert(parts@.map_values(|p: &str| p@) =~= seq!["db is already running; skipping container startup."@, "Waiting for db to be ready"@]);
                }
                go(run, DbStage::Probe, 0, lines, None, DbWork::ProbeDb(name, compose))
            } else {
                go(run, DbStage::Up, 0, lines1("Starting db"), None, DbWork::ComposeUp(name, compose))
            }
        },
        DbStage::Up => {
            if yes {
                go(run, DbStage::Probe, 0, lines1("Waiting for db to be ready"), None, DbWork::ProbeDb(name, compose))
            } else {
                end(run, Err("failed to start db with docker compose.".to_owned()))
            }
        },
        DbStage::Probe => {
            if yes {
                go(run, DbStage::Hook, 0, lines1("Waiting for db port to be reachable from the host"), None, DbWork::PortHook)
            } else if run.attempt + 1 < 60 {
                let a = run.attempt;
                go(run, DbStage::ProbeWait, a, lines0(), None, DbWork::Sleep(2))
            } else {
                end(run, Err("timed out waiting for db to become ready.".to_owned()))
            }
        },
        DbStage::ProbeWait => {
            let a = run.attempt + 1;
            go(run, DbStage::Probe, a, lines0(), None, DbWork::ProbeDb(name, compose))
        },
        DbStage::Hook | DbStage::Connect => {
            if yes {
                let cloud = run.cloud.clone();
                return go(run, DbStage::Migrate, 1, lines1("db ready, applying migrations"), None, DbWork::RunUv(cloud, backend, migrate()));
            }
            if run.stage == DbStage::Hook {
                go(run, DbStage::Connect, 0, lines0(), None, DbWork::ConnectPort)
            } else if run.attempt + 1 < 30 {
                let a = run.attempt;
                go(run, DbStage::ConnectWait, a, lines0(), None, DbWork::Sleep(1))
            } else {
                end(run, Err("timed out waiting for db port 127.0.0.1:3306 to be reachable from the host.".to_owned()))
            }
        },
        DbStage::ConnectWait => {
            let a = run.attempt + 1;
            go(run, DbStage::Connect, a, lines0(), None, DbWork::ConnectPort)
        },
        DbStage::Migrate => {
            if yes {
                let cloud = run.cloud.clone();
                go(run, DbStage::Seed, 1, lines1("Seeding db"), None, DbWork::RunUv(cloud, backend, seed()))
            } else if run.attempt < 5 {
                let a = run.attempt;
                let w = warning("alembic upgrade head", a);
                go(run, DbStage::MigrateWait, a, lines0(), Some(w), DbWork::Sleep(2))
            } else {
                end(run, Err("failed to run alembic upgrade head.".to_owned()))
            }
        },
        DbStage::MigrateWait => {
            let a = run.attempt + 1;
            let cloud = run.cloud.clone();
            go(run, DbStage::Migrate, a, lines0(), None, DbWork::RunUv(cloud, backend, migrate()))
        },
        DbStage::Seed => {
            if yes {
                let init = join_path(run.cloud.as_str(), "backend/storage/init_storage.py");
                go(run, DbStage::InitCheck, 0, lines0(), None, DbWork::IsFile(init))
            } else if run.attempt < 5 {
                let a = run.attempt;
                let w = warning("scripts/seed.py", a);
                go(run, DbStage::SeedWait, a, lines0(), Some(w), DbWork::Sleep(2))
            } else {
                end(run, Err("failed to run scripts/seed.py.".to_owned()))
            }
        },
        DbStage::SeedWait => {
            let a = run.attempt + 1;
            let cloud = run.cloud.clone();
            go(run, DbStage::Seed, a, lines0(), None, DbWork::RunUv(cloud, backend, seed()))
        },
        DbStage::InitCheck => {
            if yes {
                let init = join_path(run.cloud.as_str(), "backend/storage/init_storage.py");
                let mut args: Vec<String> = Vec::new();
                args.push("python".to_owned());
                args.push(init);
                assert(args@.map_values(|s: String| s@) =~= seq!["python"@, joined(run.cloud@, "backend/storage/init_storage.py"@)]);
                let cloud = run.cloud.clone();
                let root = run.environment.environment.root.clone();
                go(run, DbStage::Init, 0, lines0(), None, DbWork::RunUv(cloud, root, args))
            } else {
                go(run, DbStage::Closing, 0, lines1("Started db"), None, DbWork::Nothing)
            }
        },
        DbStage::Init => {
            if yes {
                go(run, DbStage::Closing, 0, lines1("Started db"), None, DbWork::Nothing)
            } else {
                end(run, Err("failed to run storage/init_storage.py.".to_owned()))
            }
        },
        DbStage::StopCompose => {
            if yes {
                go(run, DbStage::Down, 0, lines1("Stopping db"), None, DbWork::ComposeDown(name, compose))
            } else {
                end(run, Err(cat("cannot stop 'db': compose.yaml not found in ", backend.as_str())))
            }
        },
        DbStage::Down => {
            if yes {
                go(run, DbStage::Closing, 0, lines1("Stopped db"), None, DbWork::Nothing)
            } else {
                end(run, Err("failed to stop db with docker compose.".to_owned()))
            }
        },
        _ => end(run, Ok(())),
    }
}


/// Every step keeps the attempts within their bounds: at most 60 readiness probes, 30 port
/// attempts, and 5 runs of each `uv` setup step.
pub proof fn law_db_attempts_bounded(r: DbView, e: DbEvent)
    requires
        db_wf(r),
    ensures
        db_wf(db_next(r, e).0),
{
}

/// The last failed readiness probe ends the start with a timeout.
pub proof fn law_db_ready_timeout(r: DbView)
    requires
        db_wf(r),
        r.stage == DbStage::Probe,
        r.attempt == ready_probes() - 1,
    ensures
        db_next(r, DbEvent::Flag(false)).1 == DbStepView::Finish(Err("timed out waiting for db to become ready."@)),
{
}

/// A `uv` setup step that failed its fifth run ends the start with its error; an earlier failure
/// warns and retries after two seconds.
pub proof fn law_db_migration_retries(r: DbView)
    requires
        db_wf(r),
        r.stage == DbStage::Migrate,
    ensures
        r.attempt == uv_attempts() ==> db_next(r, DbEvent::Flag(false)).1 == DbStepView::Finish(Err("failed to run alembic upgrade head."@)),
        r.attempt < uv_attempts() ==> db_next(r, DbEvent::Flag(false)).1 == DbStepView::Perform(
            seq![],
            Some(retry_warning("alembic upgrade head"@, r.attempt)),
            DbWorkView::Sleep(2),
        ),
{
}

/// A successful migration is followed by seeding: the start announces `Seeding db` and runs
/// `uv run --project <cloud> python scripts/seed.py` in the cloud component's `backend`
/// directory, as its first attempt.
pub proof fn law_db_migration_then_seed(r: DbView)
    requires
        r.stage == DbStage::Migrate,
    ensures
        db_next(r, DbEvent::Flag(true)) == (
            DbView { stage: DbStage::Seed, attempt: 1, ..r },
            DbStepView::Perform(
                seq!["Seeding db"@],
                None,
                DbWorkView::RunUv(r.cloud, joined(r.cloud, "backend"@), seq!["python"@, "scripts/seed.py"@]),
            ),
        ),
{
}

/// The step announces that the database started.
pub open spec fn reports_started(step: DbStepView) -> bool {
    match step {
        DbStepView::Perform(lines, _, _) => lines.contains("Started db"@),
        _ => false,
    }
}

/// No start reports `Started db` without a successful seed run. `Started db` is handed out only
/// from the storage check or its initialization; the storage check is reached only from a
/// successful seed run; seeding is reached only from a successful migration or a retry of
/// seeding, and a retry only after a failed seed run.
pub proof fn law_db_started_only_after_seeding(r: DbView, e: DbEvent)
    ensures
        ({
            let (s, step) = db_next(r, e);
            &&& reports_started(step) ==> (r.stage == DbStage::InitCheck || r.stage == DbStage::Init)
            &&& s.stage == DbStage::Init && r.stage != DbStage::Init ==> r.stage == DbStage::InitCheck
            &&& s.stage == DbStage::InitCheck && r.stage != DbStage::InitCheck ==> (r.stage
                == DbStage::Seed && (e matches DbEvent::Flag(true)))
            &&& s.stage == DbStage::Seed && r.stage != DbStage::Seed ==> ((r.stage == DbStage::Migrate
                && (e matches DbEvent::Flag(true))) || r.stage == DbStage::SeedWait)
            &&& s.stage == DbStage::SeedWait && r.stage != DbStage::SeedWait ==> (r.stage
                == DbStage::Seed && !(e matches DbEvent::Flag(true)))
        }),
{
    reveal_strlit("Started db");
    reveal_strlit("Seeding db");
    reveal_strlit("Stopped db");
    reveal_strlit("Stopping db");
    reveal_strlit("Starting db");
    reveal_strlit("Waiting for db to be ready");
    reveal_strlit("db ready, applying migrations");
    reveal_strlit("Waiting for db port to be reachable from the host");
    reveal_strlit("db is already running; skipping container startup.");
    assert("Started db"@[3] != "Stopped db"@[3]);
    assert("Started db"@[3] != "Stopping db"@[3]);
    assert("Started db"@.len() != "Starting db"@.len());
    assert("Started db"@.len() != "Seeding db"@.len() || "Started db"@[1] != "Seeding db"@[1]);
    assert("Started db"@[0] != "Waiting for db to be ready"@[0]);
    assert("Started db"@[0] != "db ready, applying migrations"@[0]);
    assert("Started db"@[0] != "Waiting for db port to be reachable from the host"@[0]);
    assert("Started db"@[0] != "db is already running; skipping container startup."@[0]);
}

} // verus!
