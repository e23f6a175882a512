//! Carrying out an operation plan: the decisions of installing, removing, and building
//! components, as a state machine driven by the results of the work it hands out.
//!
//! The machine hands out one action at a time: progress lines to print, then one unit of work
//! (a filesystem check, a download, a `uv` or `docker` run, a metadata update). The caller
//! performs it and reports the result as an event; the machine decides what comes next, and
//! finally how the operation ends. The first failure ends the operation.

use vstd::prelude::*;
use crate::chars::{str_starts_with};
use crate::config::{config_value, load_config_value};
use crate::environment::Environment;
use crate::operations::{
    completion_marker_dirs, component_complete, component_dir, component_directory,
    engine_project_names, engine_projects, is_branch_version, success, Component, ComponentKind,
    InstallRequest, OperationOutcome, OperationPlan, VersionRequest,
};
use crate::paths::{join_path, joined};
use crate::versions::{is_latest_at, latest_stable, stable_version, version_lt};

verus! {

/// One unit of work handed out by an operation run.
pub enum Work {
    /// No work: only the progress lines.
    Nothing,
    /// Report whether a program is on `PATH` (`Flag`).
    EnsureCommand(String),
    /// Fetch the tags of a GitHub repository (`Tags`, or `Failed` with the address queried).
    FetchTags(String),
    /// Create a directory and its parents (`Done` or `Failed`).
    CreateDir(String),
    /// Report whether all these directories exist (`Flag`).
    AllDirs(Vec<String>),
    /// Report whether anything exists at this path, without following a link (`Flag`).
    PathExists(String),
    /// Report whether this is a directory (`Flag`).
    IsDir(String),
    /// Report whether this is a file (`Flag`).
    IsFile(String),
    /// Remove a file, a link, or a directory tree (`Done` or `Failed`).
    RemovePath(String),
    /// Download an archive and keep it for `Extract` (`Done` or `Failed`).
    Fetch(String),
    /// Extract the downloaded GitHub archive into this directory (`Done` or `Failed`).
    Extract(String),
    /// Resolve a branch of a repository to its commit (`Text`, or `Failed`).
    ResolveBranch(String, String),
    /// Run `uv sync --frozen --no-dev --project <dir>` (`Done` or `Failed`).
    UvSync(String),
    /// Read a text file (`Text`, or `Failed` when it cannot be read).
    ReadFile(String),
    /// Build the Docker image in a directory under a tag, for the current user (`Done` or `Failed`).
    DockerBuild(String, String),
    /// Bind a metadata key to a value in the environment's `.metadata` (`Done` or `Failed`).
    SetBinding(String, String),
    /// Remove a metadata binding from the environment's `.metadata` (`Done` or `Failed`).
    UnsetBinding(String),
}

/// The result of the action handed out last.
pub enum OperationEvent {
    Done,
    Flag(bool),
    Text(String),
    Tags(Vec<String>),
    Failed(String),
    /// The progress lines could not be written; the work was not done.
    WriteFailed(String),
}

/// What the caller does next.
pub enum OperationStep {
    /// Print these progress lines, then do the work and report its result.
    Perform(Vec<String>, Work),
    /// The operation is over.
    Finish(Result<OperationOutcome, String>),
}

/// Where an operation run stands: which action's result it awaits.
#[derive(Clone, Copy, PartialEq, Eq, Structural)]
pub enum Stage {
    /// Nothing awaited: the next request begins.
    Begin,
    EnsureUv,
    Tags,
    CreateRoot,
    Complete,
    Exists,
    Remove,
    Fetch,
    Extract,
    BranchExists,
    BranchRemove,
    Resolve,
    BranchFetch,
    BranchExtract,
    SyncCheck,
    Sync,
    EnsureDocker,
    Dockerfile,
    Config,
    Build,
    Bind,
    Bound,
    UninstallCheck,
    UninstallRemove,
    UninstallUnset,
    Closing,
    Finished,
}

/// What an operation run does.
pub enum Mode {
    /// Install each request in order.
    Install(Vec<InstallRequest>),
    /// Remove the installation of a component version.
    Uninstall(Component, String),
    /// Build the `sse_runtime` image of the engine installed in this directory.
    Build(String),
}

/// An operation in progress.
pub struct OperationRun {
    pub environment: Environment,
    pub mode: Mode,
    /// The request being carried out.
    pub index: usize,
    pub stage: Stage,
    /// The component being worked on.
    pub component: Component,
    /// Its version: the resolved release tag, or `branch:<name>` for a branch.
    pub version: String,
    /// The branch of a branch install.
    pub branch: String,
    /// The directory it is installed in.
    pub target: String,
    /// The engine project being synchronized.
    pub project: usize,
    /// The image tag of the runtime build.
    pub image: String,
}

// ---------------------------------------------------------------------------------------------
// Views.

pub enum WorkView {
    Nothing,
    EnsureCommand(Seq<char>),
    FetchTags(Seq<char>),
    CreateDir(Seq<char>),
    AllDirs(Seq<Seq<char>>),
    PathExists(Seq<char>),
    IsDir(Seq<char>),
    IsFile(Seq<char>),
    RemovePath(Seq<char>),
    Fetch(Seq<char>),
    Extract(Seq<char>),
    ResolveBranch(Seq<char>, Seq<char>),
    UvSync(Seq<char>),
    ReadFile(Seq<char>),
    DockerBuild(Seq<char>, Seq<char>),
    SetBinding(Seq<char>, Seq<char>),
    UnsetBinding(Seq<char>),
}

impl View for Work {
    type V = WorkView;

    open spec fn view(&self) -> WorkView {
        match self {
            Work::Nothing => WorkView::Nothing,
            Work::EnsureCommand(a) => WorkView::EnsureCommand(a@),
            Work::FetchTags(a) => WorkView::FetchTags(a@),
            Work::CreateDir(a) => WorkView::CreateDir(a@),
            Work::AllDirs(a) => WorkView::AllDirs(a@.map_values(|s: String| s@)),
            Work::PathExists(a) => WorkView::PathExists(a@),
            Work::IsDir(a) => WorkView::IsDir(a@),
            Work::IsFile(a) => WorkView::IsFile(a@),
            Work::RemovePath(a) => WorkView::RemovePath(a@),
            Work::Fetch(a) => WorkView::Fetch(a@),
            Work::Extract(a) => WorkView::Extract(a@),
            Work::ResolveBranch(a, b) => WorkView::ResolveBranch(a@, b@),
            Work::UvSync(a) => WorkView::UvSync(a@),
            Work::ReadFile(a) => WorkView::ReadFile(a@),
            Work::DockerBuild(a, b) => WorkView::DockerBuild(a@, b@),
            Work::SetBinding(a, b) => WorkView::SetBinding(a@, b@),
            Work::UnsetBinding(a) => WorkView::UnsetBinding(a@),
        }
    }
}

pub enum EventView {
    Done,
    Flag(bool),
    Text(Seq<char>),
    Tags(Seq<String>),
    Failed(Seq<char>),
    WriteFailed(Seq<char>),
}

impl View for OperationEvent {
    type V = EventView;

    open spec fn view(&self) -> EventView {
        match self {
            OperationEvent::Done => EventView::Done,
            OperationEvent::Flag(b) => EventView::Flag(*b),
            OperationEvent::Text(t) => EventView::Text(t@),
            OperationEvent::Tags(t) => EventView::Tags(t@),
            OperationEvent::Failed(m) => EventView::Failed(m@),
            OperationEvent::WriteFailed(m) => EventView::WriteFailed(m@),
        }
    }
}

pub enum StepView {
    Perform(Seq<Seq<char>>, WorkView),
    /// The end: the outcome's usage text and exit status, or the error.
    Finish(Result<(Option<crate::operations::OperationKind>, i32), Seq<char>>),
}

impl View for OperationStep {
    type V = StepView;

    open spec fn view(&self) -> StepView {
        match self {
            OperationStep::Perform(lines, work) => StepView::Perform(
                lines@.map_values(|s: String| s@),
                work@,
            ),
            OperationStep::Finish(Ok(o)) => StepView::Finish(Ok((o.usage, o.exit_code))),
            OperationStep::Finish(Err(m)) => StepView::Finish(Err(m@)),
        }
    }
}

pub type ComponentView = (Seq<char>, Seq<char>, Seq<char>, ComponentKind);

pub enum ModeView {
    Install(Seq<(ComponentView, Option<(bool, Seq<char>)>, bool)>),
    Uninstall(ComponentView, Seq<char>),
    Build(Seq<char>),
}

pub struct RunView {
    pub root: Seq<char>,
    pub install_root: Seq<char>,
    pub mode: ModeView,
    pub index: int,
    pub stage: Stage,
    pub component: ComponentView,
    pub version: Seq<char>,
    pub branch: Seq<char>,
    pub target: Seq<char>,
    pub project: int,
    pub image: Seq<char>,
}

impl View for OperationRun {
    type V = RunView;

    open spec fn view(&self) -> RunView {
        RunView {
            root: self.environment.root@,
            install_root: self.environment.install_root@,
            mode: match &self.mode {
                Mode::Install(reqs) => ModeView::Install(reqs@.map_values(|q: InstallRequest| q@)),
                Mode::Uninstall(c, v) => ModeView::Uninstall(c@, v@),
                Mode::Build(t) => ModeView::Build(t@),
            },
            index: self.index as int,
            stage: self.stage,
            component: self.component@,
            version: self.version@,
            branch: self.branch@,
            target: self.target@,
            project: self.project as int,
            image: self.image@,
        }
    }
}


// ---------------------------------------------------------------------------------------------
// The decisions.

/// The diagnostic for a program missing from `PATH`.
pub open spec fn missing_command(name: Seq<char>) -> Seq<char> {
    "'"@ + name + "' is required but was not found on PATH."@
}

/// The text a failure event carries.
pub open spec fn failure(e: EventView) -> Seq<char> {
    match e {
        EventView::Failed(m) => m,
        _ => seq![],
    }
}

/// The latest stable release among `tags`, as [`latest_stable`] picks it.
pub open spec fn latest_tag(tags: Seq<String>) -> Option<Seq<char>> {
    if exists|i: int| is_latest_at(tags, i) {
        Some(tags[choose|i: int| is_latest_at(tags, i)]@)
    } else {
        None
    }
}

/// The run ended.
pub open spec fn finished(r: RunView) -> RunView {
    RunView { stage: Stage::Finished, ..r }
}

/// The run ends with the error `m`.
pub open spec fn fail(r: RunView, m: Seq<char>) -> (RunView, StepView) {
    (finished(r), StepView::Finish(Err(m)))
}

/// The run moves to `stage`, handing out `lines` and `work`.
pub open spec fn perform(r: RunView, stage: Stage, lines: Seq<Seq<char>>, work: WorkView) -> (RunView, StepView) {
    (RunView { stage, ..r }, StepView::Perform(lines, work))
}

/// The install request being carried out.
pub open spec fn request(r: RunView) -> (ComponentView, Option<(bool, Seq<char>)>, bool) {
    match r.mode {
        ModeView::Install(reqs) => reqs[r.index],
        _ => arbitrary(),
    }
}

/// The number of install requests.
pub open spec fn request_count(r: RunView) -> int {
    match r.mode {
        ModeView::Install(reqs) => reqs.len() as int,
        _ => 0,
    }
}

/// The archive of a release tag.
pub open spec fn release_url(repository: Seq<char>, version: Seq<char>) -> Seq<char> {
    "https://github.com/"@ + repository + "/archive/refs/tags/"@ + version + ".tar.gz"@
}

/// The archive of a commit.
pub open spec fn commit_url(repository: Seq<char>, sha: Seq<char>) -> Seq<char> {
    "https://github.com/"@ + repository + "/archive/"@ + sha + ".tar.gz"@
}

/// The manifest of an engine project.
pub open spec fn engine_manifest(target: Seq<char>, project: int) -> Seq<char> {
    joined(joined(target, engine_projects()[project]), "pyproject.toml"@)
}

/// The line announcing a download.
pub open spec fn installing_line(r: RunView) -> Seq<char> {
    "Installing "@ + r.component.0 + " "@ + r.version
}

/// The line announcing a branch download.
pub open spec fn branch_line(r: RunView) -> Seq<char> {
    "Downloading "@ + r.component.0 + " from branch '"@ + r.branch + "'"@
}

/// What happens once a component is in place: build the engine's runtime image (or report
/// skipping it), then bind the version.
pub open spec fn finish_entry(r: RunView, lines: Seq<Seq<char>>) -> (RunView, StepView) {
    let bind = WorkView::SetBinding(r.component.2, r.version);
    if r.component.3 == ComponentKind::Engine {
        if request(r).2 {
            let skip = if request(r).1 matches Some((true, _)) {
                "Skipping sse_runtime Docker image build for engine branch '"@ + r.branch + "'."@
            } else {
                "Skipping sse_runtime Docker image build for engine "@ + r.version + "."@
            };
            perform(r, Stage::Bind, lines.push(skip), bind)
        } else {
            perform(r, Stage::EnsureDocker, lines, WorkView::EnsureCommand("docker"@))
        }
    } else {
        perform(r, Stage::Bind, lines, bind)
    }
}

/// What happens once the component's files are in place: synchronize it with `uv`.
pub open spec fn sync_entry(r: RunView) -> (RunView, StepView) {
    let r = RunView { project: 0, ..r };
    match r.component.3 {
        ComponentKind::Engine => perform(r, Stage::SyncCheck, seq![], WorkView::IsFile(engine_manifest(r.target, 0))),
        ComponentKind::CloudPython => perform(r, Stage::SyncCheck, seq![], WorkView::IsFile(joined(r.target, "pyproject.toml"@))),
        ComponentKind::Static => finish_entry(r, seq![]),
        _ => perform(r, Stage::Sync, seq![], WorkView::UvSync(r.target)),
    }
}

/// The start of the next request, or the end of the operation.
pub open spec fn begin(r: RunView) -> (RunView, StepView) {
    match r.mode {
        ModeView::Install(reqs) => if r.index >= reqs.len() {
            (finished(r), StepView::Finish(Ok((None, 0))))
        } else {
            perform(RunView { component: reqs[r.index].0, ..r }, Stage::EnsureUv, seq![], WorkView::EnsureCommand("uv"@))
        },
        ModeView::Uninstall(c, v) => {
            let target = component_dir(r.root, r.install_root, c.0, v);
            perform(RunView { component: c, version: v, target, ..r }, Stage::UninstallCheck, seq![], WorkView::IsDir(target))
        },
        ModeView::Build(t) => perform(RunView { target: t, ..r }, Stage::EnsureDocker, seq![], WorkView::EnsureCommand("docker"@)),
    }
}

/// The decision after the result `e` of the action handed out last.
pub open spec fn next_step(r: RunView, e: EventView) -> (RunView, StepView) {
    let c = r.component;
    if r.stage != Stage::Begin && e is WriteFailed {
        fail(r, "failed to write progress: "@ + e->WriteFailed_0)
    } else {
        match r.stage {
            Stage::Begin => begin(r),
            Stage::EnsureUv => if e == EventView::Flag(true) {
                match request(r).1 {
                    Some((true, b)) => {
                        let target = joined(r.root, c.0);
                        perform(RunView { branch: b, target, ..r }, Stage::BranchExists, seq![], WorkView::PathExists(target))
                    },
                    Some((false, v)) => perform(RunView { version: v, ..r }, Stage::CreateRoot, seq![], WorkView::CreateDir(r.install_root)),
                    None => perform(r, Stage::Tags, seq![], WorkView::FetchTags(c.1)),
                }
            } else {
                fail(r, missing_command("uv"@))
            },
            Stage::Tags => match e {
                EventView::Tags(tags) => match latest_tag(tags) {
                    Some(v) => perform(RunView { version: v, ..r }, Stage::CreateRoot, seq![], WorkView::CreateDir(r.install_root)),
                    None => fail(r, "could not resolve a latest stable version from GitHub tags for "@ + c.1 + "."@),
                },
                _ => fail(r, "failed to query GitHub tags API: "@ + failure(e)),
            },
            Stage::CreateRoot => if e is Done {
                let target = joined(r.install_root, c.0 + seq!['-'] + r.version);
                perform(RunView { target, ..r }, Stage::Complete, seq![], WorkView::AllDirs(completion_marker_dirs(c.3, target)))
            } else {
                fail(r, "failed to create install root: "@ + failure(e))
            },
            Stage::Complete => if e == EventView::Flag(true) {
                finish_entry(r, seq![c.0 + " "@ + r.version + " is already installed; reusing "@ + r.target])
            } else {
                perform(r, Stage::Exists, seq![], WorkView::PathExists(r.target))
            },
            Stage::Exists => if e == EventView::Flag(true) {
                perform(r, Stage::Remove, seq!["Removing incomplete installation: "@ + r.target], WorkView::RemovePath(r.target))
            } else {
                perform(r, Stage::Fetch, seq![installing_line(r)], WorkView::Fetch(release_url(c.1, r.version)))
            },
            Stage::Remove => if e is Done {
                perform(r, Stage::Fetch, seq![installing_line(r)], WorkView::Fetch(release_url(c.1, r.version)))
            } else {
                fail(r, "failed to remove incomplete installation "@ + r.target + ": "@ + failure(e))
            },
            Stage::Fetch => if e is Done {
                perform(r, Stage::Extract, seq![], WorkView::Extract(r.target))
            } else {
                fail(r, "failed to download "@ + c.0 + " "@ + r.version + " from "@ + release_url(c.1, r.version) + "."@)
            },
            Stage::Extract => if e is Done {
                sync_entry(r)
            } else {
                fail(r, "failed to extract "@ + c.0 + " "@ + r.version + "."@)
            },
            Stage::BranchExists => if e == EventView::Flag(true) {
                perform(r, Stage::BranchRemove, seq!["Removing existing branch installation: "@ + r.target], WorkView::RemovePath(r.target))
            } else {
                perform(r, Stage::Resolve, seq![branch_line(r)], WorkView::ResolveBranch(c.1, r.branch))
            },
            Stage::BranchRemove => if e is Done {
                perform(r, Stage::Resolve, seq![branch_line(r)], WorkView::ResolveBranch(c.1, r.branch))
            } else {
                fail(r, "failed to remove existing branch installation "@ + r.target + ": "@ + failure(e))
            },
            Stage::Resolve => match e {
                EventView::Text(sha) => perform(r, Stage::BranchFetch, seq![], WorkView::Fetch(commit_url(c.1, sha))),
                _ => fail(r, "failed to resolve branch '"@ + r.branch + "' for "@ + c.0 + "."@),
            },
            Stage::BranchFetch => if e is Done {
                perform(r, Stage::BranchExtract, seq![], WorkView::Extract(r.target))
            } else {
                fail(r, "failed to download "@ + c.0 + " from branch '"@ + r.branch + "'."@)
            },
            Stage::BranchExtract => if e is Done {
                sync_entry(RunView { version: "branch:"@ + r.branch, ..r })
            } else {
                fail(r, "failed to download "@ + c.0 + " from branch '"@ + r.branch + "'."@)
            },
            Stage::SyncCheck => if e == EventView::Flag(true) {
                let dir = if c.3 == ComponentKind::Engine {
                    joined(r.target, engine_projects()[r.project])
                } else {
                    r.target
                };
                perform(r, Stage::Sync, seq![], WorkView::UvSync(dir))
            } else if c.3 == ComponentKind::Engine {
                fail(r, "engine "@ + r.version + " is missing "@ + engine_projects()[r.project] + "/pyproject.toml."@)
            } else {
                fail(r, "cloud "@ + r.version + " is missing pyproject.toml."@)
            },
            Stage::Sync => if e is Done {
                if c.3 == ComponentKind::Engine && r.project + 1 < engine_projects().len() {
                    let r = RunView { project: r.project + 1, ..r };
                    perform(r, Stage::SyncCheck, seq![], WorkView::IsFile(engine_manifest(r.target, r.project)))
                } else {
                    finish_entry(r, seq![])
                }
            } else if c.3 == ComponentKind::Engine {
                fail(r, "failed to synchronize engine "@ + r.version + " project '"@ + engine_projects()[r.project] + "' with uv."@)
            } else if c.3 == ComponentKind::CloudPython {
                fail(r, "failed to synchronize cloud "@ + r.version + " with uv."@)
            } else {
                fail(r, "failed to synchronize "@ + c.0 + " "@ + r.version + " with uv."@)
            },
            Stage::EnsureDocker => if e == EventView::Flag(true) {
                perform(r, Stage::Dockerfile, seq![], WorkView::IsFile(joined(joined(r.target, "sse_runtime"@), "Dockerfile"@)))
            } else {
                fail(r, missing_command("docker"@))
            },
            Stage::Dockerfile => if e == EventView::Flag(true) {
                perform(r, Stage::Config, seq![], WorkView::ReadFile(joined(r.root, "config/.env"@)))
            } else {
                fail(r, "sse_runtime Dockerfile not found: "@ + joined(joined(r.target, "sse_runtime"@), "Dockerfile"@))
            },
            Stage::Config => {
                let image = match e {
                    EventView::Text(t) => config_value(t, "SSE_CONTAINER_IMAGE"@),
                    _ => None,
                };
                match image {
                    Some(i) => perform(
                        RunView { image: i, ..r },
                        Stage::Build,
                        seq!["Building sse_runtime Docker image as "@ + i],
                        WorkView::DockerBuild(joined(r.target, "sse_runtime"@), i),
                    ),
                    None => fail(r, "SSE_CONTAINER_IMAGE is missing from config/.env."@),
                }
            },
            Stage::Build => if e is Done {
                let built = "Built sse_runtime Docker image: "@ + r.image;
                if r.mode is Build {
                    perform(r, Stage::Closing, seq![built], WorkView::Nothing)
                } else {
                    perform(r, Stage::Bind, seq![built], WorkView::SetBinding(c.2, r.version))
                }
            } else {
                fail(r, "failed to build sse_runtime Docker image."@)
            },
            Stage::Bind => if e is Done {
                perform(r, Stage::Bound, seq!["Bound "@ + c.2 + "="@ + r.version], WorkView::Nothing)
            } else {
                fail(r, "failed to update .metadata: "@ + failure(e))
            },
            Stage::Bound => begin(RunView { index: r.index + 1, ..r }),
            Stage::UninstallCheck => if e == EventView::Flag(true) {
                perform(r, Stage::UninstallRemove, seq![], WorkView::RemovePath(r.target))
            } else if is_branch_version(r.version) {
                fail(r, "branch install not found: "@ + r.target)
            } else {
                fail(r, "installed release not found: "@ + r.target)
            },
            Stage::UninstallRemove => if e is Done {
                if is_branch_version(r.version) {
                    perform(r, Stage::UninstallUnset, seq![], WorkView::UnsetBinding(c.2))
                } else {
                    perform(r, Stage::Closing, seq!["Removed "@ + r.target], WorkView::Nothing)
                }
            } else {
                fail(r, "failed to remove "@ + r.target + ": "@ + failure(e))
            },
            Stage::UninstallUnset => if e is Done {
                perform(r, Stage::Closing, seq!["Removed "@ + r.target], WorkView::Nothing)
            } else {
                fail(r, "failed to update .metadata: "@ + failure(e))
            },
            Stage::Closing => (finished(r), StepView::Finish(Ok((None, 0)))),
            Stage::Finished => (r, StepView::Finish(Err(seq![]))),
        }
    }
}


/// The invariant of a run between two steps.
pub open spec fn run_wf(r: RunView) -> bool {
    &&& r.mode is Install ==> {
        &&& 0 <= r.index <= request_count(r)
        &&& r.stage != Stage::Begin && r.stage != Stage::Finished && r.stage != Stage::Closing
            ==> r.index < request_count(r)
    }
    &&& (r.stage == Stage::SyncCheck || r.stage == Stage::Sync) ==> 0 <= r.project < engine_projects().len()
    &&& is_install_stage(r.stage) ==> r.mode is Install
    &&& (r.stage == Stage::EnsureDocker || r.stage == Stage::Dockerfile || r.stage == Stage::Config
        || r.stage == Stage::Build) ==> !(r.mode is Uninstall)
}

/// The stages that only an install passes through.
pub open spec fn is_install_stage(stage: Stage) -> bool {
    match stage {
        Stage::Begin | Stage::EnsureDocker | Stage::Dockerfile | Stage::Config | Stage::Build
        | Stage::UninstallCheck | Stage::UninstallRemove | Stage::UninstallUnset | Stage::Closing
        | Stage::Finished => false,
        _ => true,
    }
}

/// Exactly one `latest_stable` tag is the latest.
proof fn lemma_latest_unique(tags: Seq<String>, i: int, j: int)
    requires
        is_latest_at(tags, i),
        is_latest_at(tags, j),
    ensures
        i == j,
{
    if i < j {
        assert(stable_version(tags[i]@) is Some);
    } else if j < i {
        assert(stable_version(tags[j]@) is Some);
    }
}

/// The latest stable tag, as [`latest_tag`] states it.
fn latest(tags: &Vec<String>) -> (r: Option<String>)
    ensures
        match r {
            Some(t) => latest_tag(tags@) == Some(t@),
            None => latest_tag(tags@) is None,
        },
{
    let r = latest_stable(tags);
    proof {
        match &r {
            Some(t) => {
                let i = choose|i: int| is_latest_at(tags@, i) && t@ == tags@[i]@;
                let j = choose|j: int| is_latest_at(tags@, j);
                lemma_latest_unique(tags@, i, j);
            },
            None => {
                if exists|i: int| is_latest_at(tags@, i) {
                    let i = choose|i: int| is_latest_at(tags@, i);
                    assert(stable_version(tags@[i]@) is Some);
                }
            },
        }
    }
    r
}

/// Starts carrying out an operation plan's work in an environment.
pub fn new_operation_run(environment: Environment, mode: Mode) -> (r: OperationRun)
    ensures
        r.environment == environment,
        r.mode == mode,
        r.index == 0,
        r.stage == Stage::Begin,
        run_wf(r@),
{
    OperationRun {
        environment,
        mode,
        index: 0,
        stage: Stage::Begin,
        component: Component { name: "", repository: "", binding_key: "", kind: ComponentKind::Static },
        version: String::new(),
        branch: String::new(),
        target: String::new(),
        project: 0,
        image: String::new(),
    }
}

fn end_with(run: &mut OperationRun, m: String) -> (r: OperationStep)
    ensures
        (final(run)@, r@) == fail(old(run)@, m@),
        final(run).environment == old(run).environment,
        final(run).mode == old(run).mode,
{
    run.stage = Stage::Finished;
    OperationStep::Finish(Err(m))
}

fn hand_out(run: &mut OperationRun, stage: Stage, lines: Vec<String>, work: Work) -> (r: OperationStep)
    ensures
        (final(run)@, r@) == perform(old(run)@, stage, lines@.map_values(|s: String| s@), work@),
        final(run).environment == old(run).environment,
        final(run).mode == old(run).mode,
{
    run.stage = stage;
    OperationStep::Perform(lines, work)
}

fn one_line(line: String) -> (r: Vec<String>)
    ensures
        r@.map_values(|s: String| s@) == seq![line@],
{
    let r = vec![line];
    assert(r@.map_values(|s: String| s@) =~= seq![line@]);
    r
}

fn no_lines() -> (r: Vec<String>)
    ensures
        r@.map_values(|s: String| s@) == Seq::<Seq<char>>::empty(),
{
    let r: Vec<String> = Vec::new();
    assert(r@.map_values(|s: String| s@) =~= Seq::<Seq<char>>::empty());
    r
}

fn text2(a: &str, b: &str) -> (r: String)
    ensures
        r@ == a@ + b@,
{
    let mut m = a.to_owned();
    m.append(b);
    m
}

fn text3(a: &str, b: &str, c: &str) -> (r: String)
    ensures
        r@ == a@ + b@ + c@,
{
    let mut m = a.to_owned();
    m.append(b);
    m.append(c);
    m
}

fn text4(a: &str, b: &str, c: &str, d: &str) -> (r: String)
    ensures
        r@ == a@ + b@ + c@ + d@,
{
    let mut m = a.to_owned();
    m.append(b);
    m.append(c);
    m.append(d);
    m
}

fn text5(a: &str, b: &str, c: &str, d: &str, e: &str) -> (r: String)
    ensures
        r@ == a@ + b@ + c@ + d@ + e@,
{
    let mut m = a.to_owned();
    m.append(b);
    m.append(c);
    m.append(d);
    m.append(e);
    m
}

fn failure_text(e: &OperationEvent) -> (r: &str)
    ensures
        r@ == failure(e@),
{
    match e {
        OperationEvent::Failed(m) => m.as_str(),
        _ => {
            proof {
                reveal_strlit("");
            }
            ""
        },
    }
}

fn is_yes(e: &OperationEvent) -> (r: bool)
    ensures
        r == (e@ == EventView::Flag(true)),
{
    match e {
        OperationEvent::Flag(b) => *b,
        _ => false,
    }
}

fn is_done(e: &OperationEvent) -> (r: bool)
    ensures
        r == (e@ is Done),
{
    match e {
        OperationEvent::Done => true,
        _ => false,
    }
}

fn missing(name: &str) -> (r: String)
    ensures
        r@ == missing_command(name@),
{
    text3("'", name, "' is required but was not found on PATH.")
}

/// The install request being carried out.
fn current_request(run: &OperationRun) -> (r: (Option<(bool, &String)>, bool))
    requires
        run.mode is Install,
        run_wf(run@),
        run.stage != Stage::Begin && run.stage != Stage::Finished && run.stage != Stage::Closing,
    ensures
        match r.0 {
            Some((b, v)) => request(run@).1 == Some((b, v@)),
            None => request(run@).1 is None,
        },
        r.1 == request(run@).2,
{
    match &run.mode {
        Mode::Install(reqs) => {
            let q = &reqs[run.index];
            assert(reqs@.map_values(|q: InstallRequest| q@)[run.index as int] == q@);
            let v = match &q.version {
                VersionRequest::Latest => None,
                VersionRequest::Release(t) => Some((false, t)),
                VersionRequest::Branch(b) => Some((true, b)),
            };
            (v, q.skip_sse_build)
        },
        _ => (None, false),
    }
}

/// Hands out what follows a component being in place, after `lines`: the engine's runtime image
/// build (or the report of skipping it), then the binding of its version.
pub fn finish_install(run: &mut OperationRun, lines: Vec<String>) -> (r: OperationStep)
    requires
        old(run).mode is Install,
        run_wf(old(run)@),
        old(run).stage != Stage::Begin && old(run).stage != Stage::Finished && old(run).stage
            != Stage::Closing,
    ensures
        (final(run)@, r@) == finish_entry(old(run)@, lines@.map_values(|s: String| s@)),
        final(run).environment == old(run).environment,
        final(run).mode == old(run).mode,
        final(run).index == old(run).index,
{
    let key = run.component.binding_key;
    if run.component.kind == ComponentKind::Engine {
        let (version, skip) = current_request(run);
        if skip {
            let line = match version {
                Some((true, _)) => text3(
                    "Skipping sse_runtime Docker image build for engine branch '",
                    run.branch.as_str(),
                    "'.",
                ),
                _ => text3(
                    "Skipping sse_runtime Docker image build for engine ",
                    run.version.as_str(),
                    ".",
                ),
            };
            let mut lines = lines;
            let ghost before = lines@.map_values(|s: String| s@);
            lines.push(line);
            assert(lines@.map_values(|s: String| s@) =~= before.push(line@));
            let work = Work::SetBinding(key.to_owned(), run.version.clone());
            hand_out(run, Stage::Bind, lines, work)
        } else {
            hand_out(run, Stage::EnsureDocker, lines, Work::EnsureCommand("docker".to_owned()))
        }
    } else {
        let work = Work::SetBinding(key.to_owned(), run.version.clone());
        hand_out(run, Stage::Bind, lines, work)
    }
}

/// Hands out what follows a component's files being in place.
fn sync_install(run: &mut OperationRun) -> (r: OperationStep)
    requires
        old(run).mode is Install,
        run_wf(old(run)@),
        old(run).stage != Stage::Begin && old(run).stage != Stage::Finished && old(run).stage
            != Stage::Closing,
    ensures
        (final(run)@, r@) == sync_entry(old(run)@),
        final(run).environment == old(run).environment,
        final(run).mode == old(run).mode,
        final(run).index == old(run).index,
{
    run.project = 0;
    match run.component.kind {
        ComponentKind::Engine => {
            let projects = engine_project_names();
            assert(projects@.map_values(|s: &str| s@).len() == projects@.len());
            assert(projects@.len() == 4);
            assert(projects@.map_values(|s: &str| s@)[0] == projects@[0]@);
            let manifest = join_path(join_path(run.target.as_str(), projects[0]).as_str(), "pyproject.toml");
            hand_out(run, Stage::SyncCheck, no_lines(), Work::IsFile(manifest))
        },
        ComponentKind::CloudPython => {
            let manifest = join_path(run.target.as_str(), "pyproject.toml");
            hand_out(run, Stage::SyncCheck, no_lines(), Work::IsFile(manifest))
        },
        ComponentKind::Static => finish_install(run, no_lines()),
        _ => {
            let work = Work::UvSync(run.target.clone());
            hand_out(run, Stage::Sync, no_lines(), work)
        },
    }
}

/// Starts the next request, or ends the operation.
fn begin_next(run: &mut OperationRun) -> (r: OperationStep)
    requires
        run_wf(RunView { stage: Stage::Begin, ..old(run)@ }),
    ensures
        (final(run)@, r@) == begin(old(run)@),
        final(run).environment == old(run).environment,
        final(run).mode == old(run).mode,
        run_wf(final(run)@),
{
    match &run.mode {
        Mode::Install(reqs) => {
            if run.index >= reqs.len() {
                run.stage = Stage::Finished;
                return OperationStep::Finish(Ok(success()));
            }
            let c = reqs[run.index].component;
            assert(reqs@.map_values(|q: InstallRequest| q@)[run.index as int].0 == c@);
            run.component = c;
            hand_out(run, Stage::EnsureUv, no_lines(), Work::EnsureCommand("uv".to_owned()))
        },
        Mode::Uninstall(c, v) => {
            let c = *c;
            let v = v.clone();
            let target = component_directory(&run.environment, c.name, v.as_str());
            run.component = c;
            run.version = v;
            run.target = target.clone();
            hand_out(run, Stage::UninstallCheck, no_lines(), Work::IsDir(target))
        },
        Mode::Build(t) => {
            let t = t.clone();
            run.target = t;
            hand_out(run, Stage::EnsureDocker, no_lines(), Work::EnsureCommand("docker".to_owned()))
        },
    }
}


/// The decisions while installing a release: checking for `uv`, resolving the version, and
/// reusing a complete installation or replacing an incomplete one.
pub fn install_release(run: &mut OperationRun, event: OperationEvent) -> (r: OperationStep)
    requires
        run_wf(old(run)@),
        old(run).mode is Install,
        !(event@ is WriteFailed),
        old(run).stage == Stage::EnsureUv || old(run).stage == Stage::Tags || old(run).stage
            == Stage::CreateRoot || old(run).stage == Stage::Complete || old(run).stage
            == Stage::Exists || old(run).stage == Stage::Remove,
    ensures
        (final(run)@, r@) == next_step(old(run)@, event@),
        final(run).environment == old(run).environment,
        run_wf(final(run)@),
{
    let c = run.component;
    match run.stage {
        Stage::EnsureUv => {
            if !is_yes(&event) {
                return end_with(run, missing("uv"));
            }
            let (version, _) = current_request(run);
            match version {
                Some((true, b)) => {
                    let b = b.clone();
                    let target = join_path(run.environment.root.as_str(), c.name);
                    run.branch = b;
                    run.target = target.clone();
                    hand_out(run, Stage::BranchExists, no_lines(), Work::PathExists(target))
                },
                Some((false, v)) => {
                    run.version = v.clone();
                    let root = run.environment.install_root.clone();
                    hand_out(run, Stage::CreateRoot, no_lines(), Work::CreateDir(root))
                },
                None => hand_out(run, Stage::Tags, no_lines(), Work::FetchTags(c.repository.to_owned())),
            }
        },
        Stage::Tags => {
            let fetched = match &event {
                OperationEvent::Tags(tags) => Ok(tags),
                _ => Err(failure_text(&event)),
            };
            match resolve_latest(c.repository, fetched) {
                Ok(v) => {
                    run.version = v;
                    let root = run.environment.install_root.clone();
                    hand_out(run, Stage::CreateRoot, no_lines(), Work::CreateDir(root))
                },
                Err(m) => end_with(run, m),
            }
        },
        Stage::CreateRoot => {
            if !is_done(&event) {
                return end_with(run, text2("failed to create install root: ", failure_text(&event)));
            }
            let dir = text3(c.name, "-", run.version.as_str());
            proof {
                reveal_strlit("-");
            }
            assert(dir@ =~= c.name@ + seq!['-'] + run.version@);
            let target = join_path(run.environment.install_root.as_str(), dir.as_str());
            run.target = target.clone();
            let markers = component_complete(c.kind, target.as_str());
            hand_out(run, Stage::Complete, no_lines(), Work::AllDirs(markers))
        },
        Stage::Complete => {
            if is_yes(&event) {
                let line = text4(c.name, " ", run.version.as_str(), " is already installed; reusing ");
                let line = text2(line.as_str(), run.target.as_str());
                finish_install(run, one_line(line))
            } else {
                let target = run.target.clone();
                hand_out(run, Stage::Exists, no_lines(), Work::PathExists(target))
            }
        },
        _ => {
            if run.stage == Stage::Exists && is_yes(&event) {
                let line = text2("Removing incomplete installation: ", run.target.as_str());
                let target = run.target.clone();
                return hand_out(run, Stage::Remove, one_line(line), Work::RemovePath(target));
            }
            if run.stage == Stage::Remove && !is_done(&event) {
                let m = text4(
                    "failed to remove incomplete installation ",
                    run.target.as_str(),
                    ": ",
                    failure_text(&event),
                );
                return end_with(run, m);
            }
            let line = text4("Installing ", c.name, " ", run.version.as_str());
            let url = text5("https://github.com/", c.repository, "/archive/refs/tags/", run.version.as_str(), ".tar.gz");
            hand_out(run, Stage::Fetch, one_line(line), Work::Fetch(url))
        },
    }
}

/// The diagnostic for progress that could not be written.
pub fn progress(error: &str) -> (r: String)
    ensures
        r@ == "failed to write progress: "@ + error@,
{
    text2("failed to write progress: ", error)
}

/// The latest release of `repository`, given its tags or the address that could not be queried
/// for them, or the diagnostic.
pub open spec fn latest_resolution(repository: Seq<char>, fetched: Result<Seq<String>, Seq<char>>) -> Result<Seq<char>, Seq<char>> {
    match fetched {
        Err(url) => Err("failed to query GitHub tags API: "@ + url),
        Ok(tags) => match latest_tag(tags) {
            Some(v) => Ok(v),
            None => Err("could not resolve a latest stable version from GitHub tags for "@ + repository + "."@),
        },
    }
}

/// Resolves the latest release of `repository` from its tags, or reports why it cannot.
pub fn resolve_latest(repository: &str, fetched: Result<&Vec<String>, &str>) -> (r: Result<String, String>)
    ensures
        match r {
            Ok(v) => latest_resolution(repository@, match fetched {
                Ok(t) => Ok(t@),
                Err(u) => Err(u@),
            }) == Ok::<Seq<char>, Seq<char>>(v@),
            Err(m) => latest_resolution(repository@, match fetched {
                Ok(t) => Ok(t@),
                Err(u) => Err(u@),
            }) == Err::<Seq<char>, Seq<char>>(m@),
        },
{
    match fetched {
        Err(url) => Err(text2("failed to query GitHub tags API: ", url)),
        Ok(tags) => match latest(tags) {
            Some(v) => Ok(v),
            None => Err(text3("could not resolve a latest stable version from GitHub tags for ", repository, ".")),
        },
    }
}

/// The decision after binding the installed version in `.metadata`: report it, or fail.
pub fn set_binding(run: &mut OperationRun, event: OperationEvent) -> (r: OperationStep)
    requires
        run_wf(old(run)@),
        !(event@ is WriteFailed),
        old(run).stage == Stage::Bind,
    ensures
        (final(run)@, r@) == next_step(old(run)@, event@),
        final(run).environment == old(run).environment,
        run_wf(final(run)@),
{
    let c = run.component;
    if is_done(&event) {
        let line = text4("Bound ", c.binding_key, "=", run.version.as_str());
        hand_out(run, Stage::Bound, one_line(line), Work::Nothing)
    } else {
        end_with(run, text2("failed to update .metadata: ", failure_text(&event)))
    }
}

/// The decisions while downloading a release archive and extracting it into place.
pub fn download_release(run: &mut OperationRun, event: OperationEvent) -> (r: OperationStep)
    requires
        run_wf(old(run)@),
        old(run).mode is Install,
        !(event@ is WriteFailed),
        old(run).stage == Stage::Fetch || old(run).stage == Stage::Extract,
    ensures
        (final(run)@, r@) == next_step(old(run)@, event@),
        final(run).environment == old(run).environment,
        run_wf(final(run)@),
{
    let c = run.component;
    if run.stage == Stage::Fetch {
        if is_done(&event) {
            let target = run.target.clone();
            hand_out(run, Stage::Extract, no_lines(), Work::Extract(target))
        } else {
            let url = text5("https://github.com/", c.repository, "/archive/refs/tags/", run.version.as_str(), ".tar.gz");
            let m = text4("failed to download ", c.name, " ", run.version.as_str());
            let m = text4(m.as_str(), " from ", url.as_str(), ".");
            end_with(run, m)
        }
    } else if is_done(&event) {
        sync_install(run)
    } else {
        end_with(run, text5("failed to extract ", c.name, " ", run.version.as_str(), "."))
    }
}

/// The decisions while installing a branch of a component: replacing an existing checkout,
/// resolving the branch, and downloading its commit.
pub fn install_branch(run: &mut OperationRun, event: OperationEvent) -> (r: OperationStep)
    requires
        run_wf(old(run)@),
        old(run).mode is Install,
        !(event@ is WriteFailed),
        old(run).stage == Stage::BranchExists || old(run).stage == Stage::BranchRemove
            || old(run).stage == Stage::Resolve || old(run).stage == Stage::BranchFetch
            || old(run).stage == Stage::BranchExtract,
    ensures
        (final(run)@, r@) == next_step(old(run)@, event@),
        final(run).environment == old(run).environment,
        run_wf(final(run)@),
{
    let c = run.component;
    match run.stage {
        Stage::BranchExists | Stage::BranchRemove => {
            if run.stage == Stage::BranchExists && is_yes(&event) {
                let line = text2("Removing existing branch installation: ", run.target.as_str());
                let target = run.target.clone();
                return hand_out(run, Stage::BranchRemove, one_line(line), Work::RemovePath(target));
            }
            if run.stage == Stage::BranchRemove && !is_done(&event) {
                let m = text4(
                    "failed to remove existing branch installation ",
                    run.target.as_str(),
                    ": ",
                    failure_text(&event),
                );
                return end_with(run, m);
            }
            let line = text5("Downloading ", c.name, " from branch '", run.branch.as_str(), "'");
            let work = Work::ResolveBranch(c.repository.to_owned(), run.branch.clone());
            hand_out(run, Stage::Resolve, one_line(line), work)
        },
        Stage::Resolve => match &event {
            OperationEvent::Text(sha) => {
                let url = text5("https://github.com/", c.repository, "/archive/", sha.as_str(), ".tar.gz");
                hand_out(run, Stage::BranchFetch, no_lines(), Work::Fetch(url))
            },
            _ => end_with(run, text5("failed to resolve branch '", run.branch.as_str(), "' for ", c.name, ".")),
        },
        Stage::BranchFetch => {
            if is_done(&event) {
                let target = run.target.clone();
                hand_out(run, Stage::BranchExtract, no_lines(), Work::Extract(target))
            } else {
                end_with(run, text5("failed to download ", c.name, " from branch '", run.branch.as_str(), "'."))
            }
        },
        _ => {
            if is_done(&event) {
                run.version = text2("branch:", run.branch.as_str());
                sync_install(run)
            } else {
                end_with(run, text5("failed to download ", c.name, " from branch '", run.branch.as_str(), "'."))
            }
        },
    }
}

/// The decisions while synchronizing a component with `uv`: every engine project in turn after
/// checking its manifest, the cloud component after checking its manifest, the others directly.
pub fn sync_component(run: &mut OperationRun, event: OperationEvent) -> (r: OperationStep)
    requires
        run_wf(old(run)@),
        old(run).mode is Install,
        !(event@ is WriteFailed),
        old(run).stage == Stage::SyncCheck || old(run).stage == Stage::Sync,
    ensures
        (final(run)@, r@) == next_step(old(run)@, event@),
        final(run).environment == old(run).environment,
        run_wf(final(run)@),
{
    let c = run.component;
    let projects = engine_project_names();
    assert(projects@.map_values(|s: &str| s@).len() == projects@.len());
    assert(projects@.map_values(|s: &str| s@)[run.project as int] == projects@[run.project as int]@);
    let engine = c.kind == ComponentKind::Engine;
    if run.stage == Stage::SyncCheck {
        if is_yes(&event) {
            let dir = if engine {
                join_path(run.target.as_str(), projects[run.project])
            } else {
                run.target.clone()
            };
            hand_out(run, Stage::Sync, no_lines(), Work::UvSync(dir))
        } else if engine {
            let m = text5("engine ", run.version.as_str(), " is missing ", projects[run.project], "/pyproject.toml.");
            end_with(run, m)
        } else {
            end_with(run, text3("cloud ", run.version.as_str(), " is missing pyproject.toml."))
        }
    } else if is_done(&event) {
        if engine && run.project + 1 < projects.len() {
            run.project = run.project + 1;
            assert(projects@.map_values(|s: &str| s@)[run.project as int] == projects@[run.project as int]@);
            let manifest = join_path(join_path(run.target.as_str(), projects[run.project]).as_str(), "pyproject.toml");
            hand_out(run, Stage::SyncCheck, no_lines(), Work::IsFile(manifest))
        } else {
            finish_install(run, no_lines())
        }
    } else if engine {
        let m = text5("failed to synchronize engine ", run.version.as_str(), " project '", projects[run.project], "' with uv.");
        end_with(run, m)
    } else if c.kind == ComponentKind::CloudPython {
        end_with(run, text3("failed to synchronize cloud ", run.version.as_str(), " with uv."))
    } else {
        end_with(run, text5("failed to synchronize ", c.name, " ", run.version.as_str(), " with uv."))
    }
}

/// The decisions while building the engine's `sse_runtime` Docker image: checking for `docker`
/// and the Dockerfile, reading the image tag from `config/.env`, and building it for the
/// current user.
pub fn build_sse_runtime(run: &mut OperationRun, event: OperationEvent) -> (r: OperationStep)
    requires
        run_wf(old(run)@),
        !(event@ is WriteFailed),
        old(run).stage == Stage::EnsureDocker || old(run).stage == Stage::Dockerfile || old(run).stage
            == Stage::Config || old(run).stage == Stage::Build,
    ensures
        (final(run)@, r@) == next_step(old(run)@, event@),
        final(run).environment == old(run).environment,
        run_wf(final(run)@),
{
    let c = run.component;
    match run.stage {
        Stage::EnsureDocker => {
            if is_yes(&event) {
                let runtime = join_path(run.target.as_str(), "sse_runtime");
                hand_out(run, Stage::Dockerfile, no_lines(), Work::IsFile(join_path(runtime.as_str(), "Dockerfile")))
            } else {
                end_with(run, missing("docker"))
            }
        },
        Stage::Dockerfile => {
            if is_yes(&event) {
                let env = join_path(run.environment.root.as_str(), "config/.env");
                hand_out(run, Stage::Config, no_lines(), Work::ReadFile(env))
            } else {
                let runtime = join_path(run.target.as_str(), "sse_runtime");
                let dockerfile = join_path(runtime.as_str(), "Dockerfile");
                end_with(run, text2("sse_runtime Dockerfile not found: ", dockerfile.as_str()))
            }
        },
        Stage::Config => {
            let image = match &event {
                OperationEvent::Text(t) => load_config_value(t.as_str(), "SSE_CONTAINER_IMAGE"),
                _ => None,
            };
            match image {
                Some(i) => {
                    let line = text2("Building sse_runtime Docker image as ", i.as_str());
                    let runtime = join_path(run.target.as_str(), "sse_runtime");
                    run.image = i.clone();
                    hand_out(run, Stage::Build, one_line(line), Work::DockerBuild(runtime, i))
                },
                None => end_with(run, "SSE_CONTAINER_IMAGE is missing from config/.env.".to_owned()),
            }
        },
        _ => {
            if !is_done(&event) {
                return end_with(run, "failed to build sse_runtime Docker image.".to_owned());
            }
            let built = text2("Built sse_runtime Docker image: ", run.image.as_str());
            match &run.mode {
                Mode::Build(_) => hand_out(run, Stage::Closing, one_line(built), Work::Nothing),
                _ => {
                    let work = Work::SetBinding(c.binding_key.to_owned(), run.version.clone());
                    hand_out(run, Stage::Bind, one_line(built), work)
                },
            }
        },
    }
}

/// The decisions while removing an installed component version; removing a branch checkout also
/// removes its binding, since the checkout belongs to this environment alone.
pub fn uninstall(run: &mut OperationRun, event: OperationEvent) -> (r: OperationStep)
    requires
        run_wf(old(run)@),
        !(event@ is WriteFailed),
        old(run).stage == Stage::UninstallCheck || old(run).stage == Stage::UninstallRemove
            || old(run).stage == Stage::UninstallUnset,
    ensures
        (final(run)@, r@) == next_step(old(run)@, event@),
        final(run).environment == old(run).environment,
        run_wf(final(run)@),
{
    proof {
        reveal_strlit("branch:");
    }
    let c = run.component;
    let branch = str_starts_with(run.version.as_str(), "branch:");
    match run.stage {
        Stage::UninstallCheck => {
            if is_yes(&event) {
                let target = run.target.clone();
                hand_out(run, Stage::UninstallRemove, no_lines(), Work::RemovePath(target))
            } else if branch {
                end_with(run, text2("branch install not found: ", run.target.as_str()))
            } else {
                end_with(run, text2("installed release not found: ", run.target.as_str()))
            }
        },
        Stage::UninstallRemove => {
            if !is_done(&event) {
                let m = text4("failed to remove ", run.target.as_str(), ": ", failure_text(&event));
                return end_with(run, m);
            }
            if branch {
                hand_out(run, Stage::UninstallUnset, no_lines(), Work::UnsetBinding(c.binding_key.to_owned()))
            } else {
                let line = text2("Removed ", run.target.as_str());
                hand_out(run, Stage::Closing, one_line(line), Work::Nothing)
            }
        },
        _ => {
            if is_done(&event) {
                let line = text2("Removed ", run.target.as_str());
                hand_out(run, Stage::Closing, one_line(line), Work::Nothing)
            } else {
                end_with(run, text2("failed to update .metadata: ", failure_text(&event)))
            }
        },
    }
}

/// Advances an operation run after the result of its last handed-out action (any event for the
/// first call) and hands out what comes next.
pub fn operation_next(run: &mut OperationRun, event: OperationEvent) -> (r: OperationStep)
    requires
        run_wf(old(run)@),
        old(run).stage != Stage::Finished,
    ensures
        (final(run)@, r@) == next_step(old(run)@, event@),
        final(run).environment == old(run).environment,
        run_wf(final(run)@),
{
    if run.stage != Stage::Begin {
        if let OperationEvent::WriteFailed(m) = &event {
            let m = progress(m.as_str());
            return end_with(run, m);
        }
    }
    match run.stage {
        Stage::Begin => begin_next(run),
        Stage::EnsureUv | Stage::Tags | Stage::CreateRoot | Stage::Complete | Stage::Exists
        | Stage::Remove => install_release(run, event),
        Stage::Fetch | Stage::Extract => download_release(run, event),
        Stage::BranchExists | Stage::BranchRemove | Stage::Resolve | Stage::BranchFetch
        | Stage::BranchExtract => install_branch(run, event),
        Stage::SyncCheck | Stage::Sync => sync_component(run, event),
        Stage::EnsureDocker | Stage::Dockerfile | Stage::Config | Stage::Build => build_sse_runtime(run, event),
        Stage::Bind => set_binding(run, event),
        Stage::Bound => {
            let count = match &run.mode {
                Mode::Install(reqs) => {
                    assert(reqs@.map_values(|q: InstallRequest| q@).len() == reqs@.len());
                    reqs.len()
                },
                _ => 0,
            };
            assert(run.index < count);
            run.index = run.index + 1;
            begin_next(run)
        },
        Stage::UninstallCheck | Stage::UninstallRemove | Stage::UninstallUnset => uninstall(run, event),
        _ => {
            run.stage = Stage::Finished;
            OperationStep::Finish(Ok(success()))
        },
    }
}


/// The work of an operation plan, or the outcome of a plan with nothing to do.
pub fn operation_mode(plan: OperationPlan) -> (r: Result<Mode, OperationOutcome>)
    ensures
        match plan {
            OperationPlan::Done(o) => r == Err::<Mode, OperationOutcome>(o),
            OperationPlan::Install(reqs) => r matches Ok(Mode::Install(q)) && q == reqs,
            OperationPlan::Uninstall(c, v) => r matches Ok(Mode::Uninstall(rc, rv)) && rc == c && rv == v,
            OperationPlan::Build(t) => r matches Ok(Mode::Build(rt)) && rt == t,
        },
{
    match plan {
        OperationPlan::Done(o) => Err(o),
        OperationPlan::Install(reqs) => Ok(Mode::Install(reqs)),
        OperationPlan::Uninstall(c, v) => Ok(Mode::Uninstall(c, v)),
        OperationPlan::Build(t) => Ok(Mode::Build(t)),
    }
}

/// Laws of operation runs.
///
/// A run hands out a final step exactly when it ends, and then stands finished.
pub proof fn law_finish_ends_run(r: RunView, e: EventView)
    requires
        run_wf(r),
        r.stage != Stage::Finished,
    ensures
        (next_step(r, e).1 is Finish) <==> next_step(r, e).0.stage == Stage::Finished,
{
}

/// A progress line that cannot be written ends the operation with that error.
pub proof fn law_write_failure_ends_run(r: RunView, m: Seq<char>)
    requires
        r.stage != Stage::Begin,
    ensures
        next_step(r, EventView::WriteFailed(m)).1 == StepView::Finish(Err("failed to write progress: "@ + m)),
{
}

/// The failure of any work that can fail ends the operation with an error: nothing after it is
/// attempted. (Checks whether an installation is complete or a path exists only answer a
/// question; either answer goes on.)
pub proof fn law_failed_work_ends_run(r: RunView, m: Seq<char>)
    requires
        run_wf(r),
        r.stage != Stage::Begin && r.stage != Stage::Bound && r.stage != Stage::Closing
            && r.stage != Stage::Finished && r.stage != Stage::Complete && r.stage != Stage::Exists
            && r.stage != Stage::BranchExists,
    ensures
        next_step(r, EventView::Failed(m)).1 matches StepView::Finish(Err(_)),
{
}


/// Only a branch request reaches a branch checkout: a run enters the branch stages only from the
/// start of a request that names a branch, so `update`, which requests the latest release, never
/// installs a branch.
pub proof fn law_branch_only_when_requested(r: RunView, e: EventView)
    requires
        run_wf(r),
        r.stage != Stage::Finished,
    ensures
        next_step(r, e).0.stage == Stage::BranchExists ==> r.stage == Stage::EnsureUv && request(r).1 matches Some((true, _)),
        (r.stage == Stage::EnsureUv && request(r).1 is None && e == EventView::Flag(true))
            ==> next_step(r, e).1 == StepView::Perform(seq![], WorkView::FetchTags(r.component.1)),
{
}

/// A complete installation is reused: nothing is downloaded for it.
pub proof fn law_complete_installation_is_reused(r: RunView)
    requires
        run_wf(r),
        r.stage == Stage::Complete,
    ensures
        !(next_step(r, EventView::Flag(true)).1 matches StepView::Perform(_, WorkView::Fetch(_))),
        next_step(r, EventView::Flag(true)).1 matches StepView::Perform(lines, _)
            && lines[0] == r.component.0 + " "@ + r.version + " is already installed; reusing "@ + r.target,
{
}

/// Removing a branch checkout also removes its binding; removing a release leaves the binding,
/// since other environments may use the same shared release.
pub proof fn law_uninstall_unbinds_only_branches(r: RunView)
    requires
        run_wf(r),
        r.stage == Stage::UninstallRemove,
    ensures
        (next_step(r, EventView::Done).1 matches StepView::Perform(_, WorkView::UnsetBinding(_)))
            <==> is_branch_version(r.version),
{
}


/// Once the engine's runtime image of an installed component is built, the run binds the
/// component's version: it reports the image and hands out the binding of the component's key to
/// its version.
pub proof fn law_built_engine_is_bound(r: RunView)
    requires
        r.stage == Stage::Build,
        r.mode is Install,
    ensures
        next_step(r, EventView::Done) == (
            RunView { stage: Stage::Bind, ..r },
            StepView::Perform(
                seq!["Built sse_runtime Docker image: "@ + r.image],
                WorkView::SetBinding(r.component.2, r.version),
            ),
        ),
{
}

/// In an install run, every component put in place has its version bound before the run moves
/// on: the run passes to the next request only from `Bound`; `Bound` is reached only when the
/// binding handed out last succeeded, for the same component and version; the binding stage is
/// entered only by handing out the binding of the component's key to its version; and the run
/// finishes successfully only when it starts the next request or closes.
pub proof fn law_install_binds_before_moving_on(r: RunView, e: EventView)
    requires
        run_wf(r),
        r.mode is Install,
    ensures
        ({
            let (s, step) = next_step(r, e);
            &&& s.index != r.index ==> r.stage == Stage::Bound
            &&& s.stage == Stage::Bound && r.stage != Stage::Bound ==> (r.stage == Stage::Bind
                && e == EventView::Done && s.component == r.component && s.version == r.version)
            &&& s.stage == Stage::Bind && r.stage != Stage::Bind ==> (step matches StepView::Perform(
                _,
                WorkView::SetBinding(key, value),
            ) && key == s.component.2 && value == s.version)
            &&& step matches StepView::Finish(Ok(_)) ==> (r.stage == Stage::Begin || r.stage
                == Stage::Bound || r.stage == Stage::Closing)
            &&& s.stage == Stage::Closing && r.stage != Stage::Closing ==> (r.stage
                == Stage::UninstallRemove || r.stage == Stage::UninstallUnset)
        }),
{
}

} // verus!
