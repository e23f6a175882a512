//! Result data shared by lifecycle commands.

use vstd::prelude::*;
use crate::chars::{append_str, string_of};

verus! {

/// The lifecycle command whose usage text an outcome shows.
#[derive(Clone, Copy, PartialEq, Eq, Structural)]
pub enum LifecycleKind {
    BackendStart,
    BackendStop,
    BackendRestart,
    CloudLocalStart,
    CloudLocalStop,
    CloudLocalRestart,
    ManagerStart,
    ManagerStop,
    ManagerRestart,
}

/// What a lifecycle command leaves to render once it has run.
#[derive(Clone, Copy, PartialEq, Eq, Structural)]
pub enum LifecycleOutput {
    Nothing,
    Usage(LifecycleKind),
}

/// Final result of a lifecycle command: the output to render and the exit status.
#[derive(Clone, Copy, PartialEq, Eq, Structural)]
pub struct LifecycleOutcome {
    pub output: LifecycleOutput,
    pub exit_code: i32,
}

impl LifecycleOutcome {
    /// Exit status for this outcome.
    pub fn exit_code(&self) -> (r: i32)
        ensures
            r == self.exit_code,
    {
        self.exit_code
    }
}

/// A finished command with nothing left to render.
pub fn success() -> (r: LifecycleOutcome)
    ensures
        r.output == LifecycleOutput::Nothing,
        r.exit_code == 0,
{
    result_code(0)
}

/// A finished command with nothing left to render and the given exit status.
pub fn result_code(exit_code: i32) -> (r: LifecycleOutcome)
    ensures
        r.output == LifecycleOutput::Nothing,
        r.exit_code == exit_code,
{
    LifecycleOutcome { output: LifecycleOutput::Nothing, exit_code }
}

/// A command that shows its usage text and exits with the given status.
pub fn usage(kind: LifecycleKind, exit_code: i32) -> (r: LifecycleOutcome)
    ensures
        r.output == LifecycleOutput::Usage(kind),
        r.exit_code == exit_code,
{
    LifecycleOutcome { output: LifecycleOutput::Usage(kind), exit_code }
}

/// Appends one progress line, `message` followed by a line feed.
pub fn line(out: &mut String, message: &str)
    ensures
        final(out)@ == old(out)@ + message@ + seq!['\n'],
{
    let mut v: Vec<char> = Vec::new();
    append_str(&mut v, message);
    v.push('\n');
    let tail = string_of(&v);
    out.append(tail.as_str());
    assert(final(out)@ =~= old(out)@ + message@ + seq!['\n']);
}

} // verus!

verus! {

/// How a stopped process is reported, per domain.
#[derive(Clone, Copy, PartialEq, Eq, Structural)]
pub enum StopStyle {
    Backend,
    CloudLocal,
    Manager,
}

/// One unit of service work, carried out around this library.
pub enum ServiceAction {
    /// Start a PID-managed service; its output goes to `log`, or nowhere when `None`.
    StartProcess { service: String, foreground: bool, log: Option<String>, manager: bool },
    /// Stop a PID-managed service.
    StopProcess { service: String, style: StopStyle },
    /// Start the containerized database and prepare it.
    StartDatabase,
    /// Stop the containerized database.
    StopDatabase,
}

/// What a failed step does to the rest of the run.
#[derive(Clone, Copy, PartialEq, Eq, Structural)]
pub enum OnFailure {
    /// The command fails with the step's error.
    Abort,
    /// The error is reported, the run continues, and the failure is remembered.
    Report,
}

/// One step of a lifecycle run.
pub enum PlanStep {
    Act(ServiceAction, OnFailure),
    /// Ends the run with exit status 1 when a reported failure has occurred so far.
    Checkpoint,
}

/// The exit status of a run that reaches its end.
#[derive(Clone, Copy, PartialEq, Eq, Structural)]
pub enum Finish {
    /// Exit status 0.
    Success,
    /// The status reported by the last started service.
    StartCode,
    /// 1 when a reported failure occurred, 0 otherwise.
    FailedFlag,
}

/// A lifecycle command in progress.
pub struct LifecycleRun {
    pub steps: Vec<PlanStep>,
    pub finish: Finish,
    /// The next step to examine.
    pub next: usize,
    /// Whether the step before `next` was handed out and its result is awaited.
    pub awaiting: bool,
    /// Whether a reported failure has occurred.
    pub failed: bool,
    /// The status reported by the last started service.
    pub code: i32,
}

/// What a lifecycle command does once its arguments are understood.
pub enum LifecyclePlan {
    /// Nothing to run: the outcome is known.
    Done(LifecycleOutcome),
    Run(LifecycleRun),
}

/// The result of the step handed out last.
pub enum StepEvent {
    Started(i32),
    Stopped,
    Failed(String),
}

/// What the caller does next.
pub enum RunAction {
    /// Carry out the action of step `i`, then report its result.
    Perform(usize),
    /// Report this error on the error stream, then continue.
    Report(String),
    /// The command is over.
    Finish(Result<LifecycleOutcome, String>),
}

impl PlanStep {
    pub open spec fn is_act(&self) -> bool {
        self is Act
    }

    pub open spec fn policy(&self) -> OnFailure {
        match self {
            PlanStep::Act(_, p) => *p,
            PlanStep::Checkpoint => OnFailure::Abort,
        }
    }
}

/// The plan is the usage outcome of `kind` with `code`.
pub open spec fn is_usage_plan(plan: LifecyclePlan, kind: LifecycleKind, code: i32) -> bool {
    plan matches LifecyclePlan::Done(o) && o.output == LifecycleOutput::Usage(kind) && o.exit_code
        == code
}

/// Two steps that do the same thing: equal in every field, texts compared by their characters.
pub open spec fn same_step(a: PlanStep, b: PlanStep) -> bool {
    match (a, b) {
        (PlanStep::Act(x, p), PlanStep::Act(y, q)) => p == q && match (x, y) {
            (
                ServiceAction::StartProcess { service: s1, foreground: f1, log: l1, manager: m1 },
                ServiceAction::StartProcess { service: s2, foreground: f2, log: l2, manager: m2 },
            ) => s1@ == s2@ && f1 == f2 && m1 == m2 && match (l1, l2) {
                (Some(u), Some(v)) => u@ == v@,
                (None, None) => true,
                _ => false,
            },
            (
                ServiceAction::StopProcess { service: s1, style: t1 },
                ServiceAction::StopProcess { service: s2, style: t2 },
            ) => s1@ == s2@ && t1 == t2,
            (ServiceAction::StartDatabase, ServiceAction::StartDatabase) => true,
            (ServiceAction::StopDatabase, ServiceAction::StopDatabase) => true,
            _ => false,
        },
        (PlanStep::Checkpoint, PlanStep::Checkpoint) => true,
        _ => false,
    }
}

/// Two results of deciding a lifecycle command that are the same: the same error text, the same
/// outcome, or runs equal in every field, step by step.
pub open spec fn same_plan(a: Result<LifecyclePlan, String>, b: Result<LifecyclePlan, String>) -> bool {
    match (a, b) {
        (Err(x), Err(y)) => x@ == y@,
        (Ok(LifecyclePlan::Done(x)), Ok(LifecyclePlan::Done(y))) => x == y,
        (Ok(LifecyclePlan::Run(x)), Ok(LifecyclePlan::Run(y))) => {
            &&& x.finish == y.finish
            &&& x.next == y.next
            &&& x.awaiting == y.awaiting
            &&& x.failed == y.failed
            &&& x.code == y.code
            &&& x.steps@.len() == y.steps@.len()
            &&& forall|i: int| 0 <= i < x.steps@.len() ==> same_step(#[trigger] x.steps@[i], y.steps@[i])
        },
        _ => false,
    }
}

/// A new run of `steps`, ending as `finish` says.
pub fn new_run(steps: Vec<PlanStep>, finish: Finish) -> (r: LifecycleRun)
    ensures
        r.steps@ == steps@,
        r.finish == finish,
        r.next == 0,
        !r.awaiting,
        !r.failed,
        r.code == 0,
{
    LifecycleRun { steps, finish, next: 0, awaiting: false, failed: false, code: 0 }
}

/// The outcome of a run that reaches its end.
pub open spec fn finished_outcome(finish: Finish, failed: bool, code: i32) -> LifecycleOutcome {
    LifecycleOutcome {
        output: LifecycleOutput::Nothing,
        exit_code: match finish {
            Finish::Success => 0,
            Finish::StartCode => code,
            Finish::FailedFlag => if failed {
                1
            } else {
                0
            },
        },
    }
}

/// The first step at or after `i` that is not a checkpoint passed without failure: where the run
/// stops advancing.
pub open spec fn stop_point(steps: Seq<PlanStep>, i: int, failed: bool) -> int
    decreases steps.len() - i,
{
    if i < 0 || i >= steps.len() {
        steps.len() as int
    } else if steps[i].is_act() || failed {
        i
    } else {
        stop_point(steps, i + 1, failed)
    }
}

/// Advances a run after the result of its last handed-out step.
///
/// A failure of an aborting step ends the command with that error; a failure of a reporting
/// step is reported and remembered. The run then hands out the next action; a checkpoint after a
/// remembered failure ends the command with status 1; past the last step the command ends with
/// the status its plan says.
#[verifier::loop_isolation(false)]
pub fn lifecycle_next(run: &mut LifecycleRun, event: Option<StepEvent>) -> (r: RunAction)
    requires
        old(run).next <= old(run).steps@.len(),
    ensures
        final(run).next <= final(run).steps@.len(),
        final(run).steps@ == old(run).steps@,
        final(run).finish == old(run).finish,
        ({
            let awaited = old(run).awaiting && 0 < old(run).next <= old(run).steps@.len()
                && old(run).steps@[old(run).next - 1].is_act();
            let policy = old(run).steps@[old(run).next - 1].policy();
            match event {
                Some(StepEvent::Failed(m)) if awaited && policy == OnFailure::Abort => r matches RunAction::Finish(Err(e)) && e@ == m@,
                Some(StepEvent::Failed(m)) if awaited => {
                    &&& r matches RunAction::Report(e) && e@ == m@
                    &&& final(run).failed
                    &&& !final(run).awaiting
                    &&& final(run).next == old(run).next
                    &&& final(run).code == old(run).code
                },
                _ => {
                    let code = match event {
                        Some(StepEvent::Started(c)) if awaited => c,
                        _ => old(run).code,
                    };
                    let at = stop_point(old(run).steps@, old(run).next as int, old(run).failed);
                    &&& final(run).failed == old(run).failed
                    &&& final(run).code == code
                    &&& if at >= old(run).steps@.len() {
                        r == RunAction::Finish(Ok(finished_outcome(old(run).finish, old(run).failed, code)))
                    } else if old(run).steps@[at].is_act() {
                        &&& r == RunAction::Perform(at as usize)
                        &&& final(run).next == at + 1
                        &&& final(run).awaiting
                    } else {
                        r == RunAction::Finish(Ok(result_code_spec(1)))
                    }
                },
            }
        }),
{
    let awaited = run.awaiting && 0 < run.next && run.next <= run.steps.len() && match &run.steps[run.next - 1] {
        PlanStep::Act(_, _) => true,
        PlanStep::Checkpoint => false,
    };
    assert(awaited == (old(run).awaiting && 0 < old(run).next <= old(run).steps@.len()
        && old(run).steps@[old(run).next - 1].is_act()));
    run.awaiting = false;
    match event {
        Some(StepEvent::Started(c)) => {
            if awaited {
                run.code = c;
            }
        },
        Some(StepEvent::Stopped) => {},
        Some(StepEvent::Failed(m)) => {
            if awaited {
                let policy = match &run.steps[run.next - 1] {
                    PlanStep::Act(_, p) => *p,
                    PlanStep::Checkpoint => OnFailure::Abort,
                };
                assert(policy == old(run).steps@[old(run).next - 1].policy());
                match policy {
                    OnFailure::Abort => return RunAction::Finish(Err(m)),
                    OnFailure::Report => {
                        run.failed = true;
                        return RunAction::Report(m);
                    },
                }
            }
        },
        None => {},
    }
    let ghost code = run.code;
    while run.next < run.steps.len()
        invariant
            run.code == code,
            run.steps@ == old(run).steps@,
            run.finish == old(run).finish,
            run.next <= run.steps@.len(),
            old(run).next <= run.next,
            stop_point(run.steps@, run.next as int, run.failed) == stop_point(
                old(run).steps@,
                old(run).next as int,
                old(run).failed,
            ),
            run.failed == old(run).failed,
        decreases run.steps.len() - run.next,
    {
        let i = run.next;
        match &run.steps[i] {
            PlanStep::Act(_, _) => {
                assert(run.steps@[i as int].is_act());
                assert(stop_point(run.steps@, i as int, run.failed) == i);
                run.next = i + 1;
                run.awaiting = true;
                return RunAction::Perform(i);
            },
            PlanStep::Checkpoint => {
                assert(!run.steps@[i as int].is_act());
                if run.failed {
                    assert(stop_point(run.steps@, i as int, run.failed) == i);
                    return RunAction::Finish(Ok(result_code(1)));
                }
                run.next = i + 1;
            },
        }
    }
    let outcome = match run.finish {
        Finish::Success => success(),
        Finish::StartCode => result_code(run.code),
        Finish::FailedFlag => result_code(if run.failed { 1 } else { 0 }),
    };
    RunAction::Finish(Ok(outcome))
}

/// The outcome `result_code` builds.
pub open spec fn result_code_spec(exit_code: i32) -> LifecycleOutcome {
    LifecycleOutcome { output: LifecycleOutput::Nothing, exit_code }
}

} // verus!

verus! {

/// `step` starts the process of `service` as described, failing as `policy` says.
pub open spec fn is_start_step(
    step: PlanStep,
    service: Seq<char>,
    foreground: bool,
    log: Option<Seq<char>>,
    manager: bool,
    policy: OnFailure,
) -> bool {
    match step {
        PlanStep::Act(ServiceAction::StartProcess { service: s, foreground: f, log: l, manager: m }, p) => {
            &&& s@ == service
            &&& f == foreground
            &&& match (l, log) {
                (Some(a), Some(b)) => a@ == b,
                (None, None) => true,
                _ => false,
            }
            &&& m == manager
            &&& p == policy
        },
        _ => false,
    }
}

/// `step` stops the process of `service`, failing as `policy` says.
pub open spec fn is_stop_step(step: PlanStep, service: Seq<char>, style: StopStyle, policy: OnFailure) -> bool {
    match step {
        PlanStep::Act(ServiceAction::StopProcess { service: s, style: st }, p) => s@ == service && st
            == style && p == policy,
        _ => false,
    }
}

/// `step` starts the database, failing as `policy` says.
pub open spec fn is_start_database_step(step: PlanStep, policy: OnFailure) -> bool {
    step matches PlanStep::Act(ServiceAction::StartDatabase, p) && p == policy
}

/// `step` stops the database, failing as `policy` says.
pub open spec fn is_stop_database_step(step: PlanStep, policy: OnFailure) -> bool {
    step matches PlanStep::Act(ServiceAction::StopDatabase, p) && p == policy
}

/// A step starting the process of `service`.
pub fn start_step(service: &str, foreground: bool, log: Option<String>, manager: bool, policy: OnFailure) -> (r: PlanStep)
    ensures
        is_start_step(r, service@, foreground, match log {
            Some(l) => Some(l@),
            None => None,
        }, manager, policy),
{
    PlanStep::Act(
        ServiceAction::StartProcess { service: service.to_owned(), foreground, log, manager },
        policy,
    )
}

/// A step stopping the process of `service`.
pub fn stop_step(service: &str, style: StopStyle, policy: OnFailure) -> (r: PlanStep)
    ensures
        is_stop_step(r, service@, style, policy),
{
    PlanStep::Act(ServiceAction::StopProcess { service: service.to_owned(), style }, policy)
}

} // verus!
