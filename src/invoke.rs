//! The two-phase protocol with the external interpreter: an availability
//! probe, then one inference run whose stdout carries the result. The
//! decisions are made here; the caller spawns the processes and reports back.
use vstd::prelude::*;
use vstd::utf8::{valid_utf8, decode_utf8};
use crate::resolver::{ExecutableConfig, Platform, resolve_executable};
use crate::layout::{model_path, script_path, model_path_of, script_path_of};
use crate::result::{ModelResult, DecodeError, decode, decode_answer, classes_distinct};

verus! {

/// The availability flag the probe passes, alone.
pub open spec fn probe_flag() -> Seq<char> {
    "--version"@
}

/// The processes one invocation may launch.
pub struct InvocationPlan {
    pub executable: String,
    /// Arguments of the availability probe.
    pub probe_args: Vec<String>,
    /// Arguments of the inference run: script, image, model, in that order.
    pub run_args: Vec<String>,
}

/// Plans an invocation on `image_path` for the application directory
/// `app_dir`, with the interpreter that `config` resolves to.
pub fn plan_invocation(
    config: &ExecutableConfig,
    platform: Platform,
    app_dir: &str,
    image_path: &str,
) -> (r: InvocationPlan)
    ensures
        r.executable@ == config.resolved(platform),
        r.probe_args@.len() == 1,
        r.probe_args@[0]@ == probe_flag(),
        r.run_args@.len() == 3,
        r.run_args@[0]@ == script_path_of(app_dir@, platform),
        r.run_args@[1]@ == image_path@,
        r.run_args@[2]@ == model_path_of(app_dir@, platform),
{
    let executable = resolve_executable(config, platform);
    let mut probe_args: Vec<String> = Vec::new();
    probe_args.push(String::from_str("--version"));
    let mut run_args: Vec<String> = Vec::new();
    run_args.push(script_path(app_dir, platform));
    run_args.push(String::from_str(image_path));
    run_args.push(model_path(app_dir, platform));
    InvocationPlan { executable, probe_args, run_args }
}

/// What became of a launched process.
pub enum ProcessOutcome {
    /// The process could not be spawned; the OS error's text.
    FailedToStart(String),
    /// The process ran: its exit code (`None` when it ended without one),
    /// stdout and stderr.
    Exited { code: Option<i32>, stdout: Vec<u8>, stderr: Vec<u8> },
}

/// Failures of an invocation, each surfaced once to the caller.
pub enum InvokeError {
    /// The host could not say where the application directory is.
    AppDirUnavailable,
    /// The interpreter could not be launched for the probe.
    ProbeLaunch(String),
    /// The probe ran but did not exit successfully; its stderr.
    ProbeRejected(Vec<u8>),
    /// The interpreter could not be launched for the inference run.
    Launch(String),
    /// The run's stdout is not valid UTF-8.
    Encoding,
    /// The run's stdout is text that does not decode to a result.
    Decode(DecodeError),
}

/// Where an invocation stands.
#[derive(Clone, Copy, Debug, PartialEq, Eq, Structural)]
pub enum Phase {
    /// Waiting for the availability probe.
    Probing,
    /// Waiting for the inference run.
    Running,
    /// Finished; nothing more to launch.
    Done,
}

/// What the caller does next.
pub enum Action {
    /// Launch the inference run of the plan.
    RunInference,
    /// Hand this answer to the caller of the invocation.
    Finish(Result<ModelResult, InvokeError>),
}

/// Relies on String::from_utf8, which fails exactly on byte vectors that
/// are not valid UTF-8 and otherwise keeps the decoded characters.
#[verifier::external_body]
fn utf8_text(bytes: Vec<u8>) -> (r: Option<String>)
    ensures
        r is Some <==> valid_utf8(bytes@),
        r matches Some(s) ==> s@ == decode_utf8(bytes@),
{
    String::from_utf8(bytes).ok()
}

/// The probe succeeded: it ran and exited with code 0.
pub open spec fn probe_succeeded(outcome: ProcessOutcome) -> bool {
    outcome matches ProcessOutcome::Exited { code: Some(c), .. } && c == 0
}

/// Judges the availability probe. A probe that could not start is a launch
/// failure; one that ran and did not exit with 0 is a rejection carrying its
/// stderr.
pub fn judge_probe(outcome: ProcessOutcome) -> (r: Result<(), InvokeError>)
    ensures
        r is Ok <==> probe_succeeded(outcome),
        outcome matches ProcessOutcome::FailedToStart(m) ==> (r matches Err(
            InvokeError::ProbeLaunch(e),
        ) && e@ == m@),
        outcome matches ProcessOutcome::Exited { stderr, .. } ==> (!probe_succeeded(outcome)
            ==> (r matches Err(InvokeError::ProbeRejected(e)) && e@ == stderr@)),
{
    match outcome {
        ProcessOutcome::FailedToStart(m) => Err(InvokeError::ProbeLaunch(m)),
        ProcessOutcome::Exited { code, stdout: _, stderr } => match code {
            Some(c) => {
                if c == 0 {
                    Ok(())
                } else {
                    Err(InvokeError::ProbeRejected(stderr))
                }
            },
            None => Err(InvokeError::ProbeRejected(stderr)),
        },
    }
}

/// What the answer `r` to an inference run with `outcome` is. Exit code and
/// stderr play no part: stdout alone decides once the run has started.
pub open spec fn run_answer(outcome: ProcessOutcome, r: Result<ModelResult, InvokeError>) -> bool {
    match outcome {
        ProcessOutcome::FailedToStart(m) => r matches Err(InvokeError::Launch(e)) && e@ == m@,
        ProcessOutcome::Exited { stdout, .. } => {
            if !valid_utf8(stdout@) {
                r matches Err(InvokeError::Encoding)
            } else {
                match r {
                    Ok(m) => decode_answer(decode_utf8(stdout@), Ok(m)),
                    Err(InvokeError::Decode(e)) => decode_answer(decode_utf8(stdout@), Err(e)),
                    _ => false,
                }
            }
        },
    }
}

/// Two answers agree: the same result, or the same kind of failure with the
/// same payload.
pub open spec fn same_answer(a: Result<ModelResult, InvokeError>, b: Result<ModelResult, InvokeError>) -> bool {
    match (a, b) {
        (Ok(x), Ok(y)) => x@ == y@,
        (Err(InvokeError::Encoding), Err(InvokeError::Encoding)) => true,
        (Err(InvokeError::Decode(x)), Err(InvokeError::Decode(y))) => x.kind == y.kind
            && x.payload@ == y.payload@,
        (Err(InvokeError::Launch(x)), Err(InvokeError::Launch(y))) => x@ == y@,
        _ => false,
    }
}

/// Two inference runs that print the same stdout get the same answer,
/// whatever their exit codes and stderr.
pub proof fn lemma_stdout_decides(
    a: ProcessOutcome,
    b: ProcessOutcome,
    ra: Result<ModelResult, InvokeError>,
    rb: Result<ModelResult, InvokeError>,
)
    requires
        a is Exited,
        b is Exited,
        a->stdout@ == b->stdout@,
        run_answer(a, ra),
        run_answer(b, rb),
    ensures
        same_answer(ra, rb),
{
}

/// Interprets the inference run. Its exit code is not consulted: the payload
/// on stdout decides. A run that could not start is a launch failure, stdout
/// that is not UTF-8 an encoding failure, and otherwise the answer is what
/// decoding the text gives.
pub fn judge_run(outcome: ProcessOutcome) -> (r: Result<ModelResult, InvokeError>)
    ensures
        run_answer(outcome, r),
        r matches Ok(ModelResult::Success(s)) ==> classes_distinct(s@),
{
    match outcome {
        ProcessOutcome::FailedToStart(m) => Err(InvokeError::Launch(m)),
        ProcessOutcome::Exited { code: _, stdout, stderr: _ } => match utf8_text(stdout) {
            None => Err(InvokeError::Encoding),
            Some(text) => match decode(text.as_str()) {
                Ok(m) => Ok(m),
                Err(e) => Err(InvokeError::Decode(e)),
            },
        },
    }
}

/// One decision of an invocation: given the phase and the outcome of the
/// process launched in it, the next phase and what to do. A failed probe
/// finishes the invocation without any inference run; a successful one
/// leads to exactly one run, whose outcome finishes the invocation.
pub fn step(phase: Phase, outcome: ProcessOutcome) -> (r: (Phase, Action))
    requires
        phase != Phase::Done,
    ensures
        phase == Phase::Probing && probe_succeeded(outcome) ==> (r.0 == Phase::Running
            && r.1 is RunInference),
        phase == Phase::Probing && !probe_succeeded(outcome) ==> (r.0 == Phase::Done && (
        r.1 matches Action::Finish(Err(e)) && (e is ProbeLaunch || e is ProbeRejected))),
        phase == Phase::Running ==> (r.0 == Phase::Done && (r.1 matches Action::Finish(a) && run_answer(outcome, a))),
{
    match phase {
        Phase::Probing => match judge_probe(outcome) {
            Ok(()) => (Phase::Running, Action::RunInference),
            Err(e) => (Phase::Done, Action::Finish(Err(e))),
        },
        _ => (Phase::Done, Action::Finish(judge_run(outcome))),
    }
}

} // verus!
