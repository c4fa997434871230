//! The per-invocation state machine of one worker process. The machine
//! makes every decision of the protocol — where the work item's file is,
//! whether a parameter record may reach the proving engine, what bytes each
//! write carries, and the final exit code — while the surrounding process
//! only performs the chosen action (a file read, the engine call, a file
//! write, the exit) and reports what happened. Every failure is terminal:
//! there is no retry transition, relaunching is the parent's decision.

use vstd::prelude::*;
use crate::errors::{
    bare_failure, diagnostic_text, outcome_of_error, spec_diagnostic_text, spec_exit_code,
    exit_code, Failure, FailureModel, Outcome, WorkerError, EXIT_CLEAN, EXIT_CRASHED,
    EXIT_REPORTED,
};
use crate::locate::{
    param_folder, param_from_parent, spec_param_from_parent, uuid_path, work_item_path,
};
use crate::phase::{
    params_match_shape, params_valid, result_bytes, result_bytes_spec, validate_params, Phase,
    PhaseOutput, PhaseParams,
};
use crate::shape::{dispatch, shape_of_size, SectorShape};

verus! {

/// Where one invocation stands: started; dispatched onto a shape with the
/// work item's path resolved; parameters validated and the engine running;
/// the success payload being persisted; a diagnostic being persisted; or
/// finished with a classified outcome.
#[derive(Debug, PartialEq, Eq)]
pub enum State {
    Start { phase: Phase },
    Dispatched { phase: Phase, path: String, shape: SectorShape },
    ParamsRead { phase: Phase, path: String, shape: SectorShape },
    Computed { path: String },
    Reporting { path: String, error: WorkerError },
    Finished { outcome: Outcome },
}

/// What the machine asks the surrounding process to do next. Every write
/// is a full replacement of the named file with the carried content; the
/// machine never asks for a partial or appending write.
#[derive(Debug, PartialEq, Eq)]
pub enum Action {
    /// Open and read the work item's file and parse the parameter record.
    ReadParams { path: String },
    /// Invoke the proving engine with the validated parameters.
    RunEngine { params: PhaseParams },
    /// Replace the work item's file with the success payload.
    WriteResult { path: String, bytes: Vec<u8> },
    /// Replace the work item's file with a failure diagnostic.
    WriteDiagnostic { path: String, text: String },
    /// Exit the process with the given code.
    Exit { code: u8 },
}

/// The mathematical content of a `State`: paths as character sequences.
pub enum StateModel {
    Start { phase: Phase },
    Dispatched { phase: Phase, path: Seq<char>, shape: SectorShape },
    ParamsRead { phase: Phase, path: Seq<char>, shape: SectorShape },
    Computed { path: Seq<char> },
    Reporting { path: Seq<char>, error: WorkerError },
    Finished { outcome: Outcome },
}

/// The mathematical content of an `Action`.
pub enum ActionModel {
    ReadParams { path: Seq<char> },
    RunEngine { params: PhaseParams },
    WriteResult { path: Seq<char>, bytes: Seq<u8> },
    WriteDiagnostic { path: Seq<char>, text: Seq<char> },
    Exit { code: u8 },
}

impl View for State {
    type V = StateModel;

    open spec fn view(&self) -> StateModel {
        match self {
            State::Start { phase } => StateModel::Start { phase: *phase },
            State::Dispatched { phase, path, shape } => StateModel::Dispatched {
                phase: *phase,
                path: path@,
                shape: *shape,
            },
            State::ParamsRead { phase, path, shape } => StateModel::ParamsRead {
                phase: *phase,
                path: path@,
                shape: *shape,
            },
            State::Computed { path } => StateModel::Computed { path: path@ },
            State::Reporting { path, error } => StateModel::Reporting {
                path: path@,
                error: *error,
            },
            State::Finished { outcome } => StateModel::Finished { outcome: *outcome },
        }
    }
}

impl View for Action {
    type V = ActionModel;

    open spec fn view(&self) -> ActionModel {
        match self {
            Action::ReadParams { path } => ActionModel::ReadParams { path: path@ },
            Action::RunEngine { params } => ActionModel::RunEngine { params: *params },
            Action::WriteResult { path, bytes } => ActionModel::WriteResult {
                path: path@,
                bytes: bytes@,
            },
            Action::WriteDiagnostic { path, text } => ActionModel::WriteDiagnostic {
                path: path@,
                text: text@,
            },
            Action::Exit { code } => ActionModel::Exit { code: *code },
        }
    }
}

/// A failure result at the process boundary, reduced to its content.
pub open spec fn failure_res_view<T>(r: Result<T, Failure>) -> Result<T, FailureModel> {
    match r {
        Ok(t) => Ok(t),
        Err(f) => Err(f@),
    }
}

/// Finish at once with a reported error: the terminal state and the exit
/// action for it.
pub open spec fn spec_finish_with(e: WorkerError) -> (StateModel, ActionModel) {
    (
        StateModel::Finished { outcome: outcome_of_error(e) },
        ActionModel::Exit { code: spec_exit_code(outcome_of_error(e)) },
    )
}

/// The diagnostic text for an error the worker itself raises, with no
/// captured detail.
pub open spec fn spec_bare_diagnostic(e: WorkerError) -> Seq<char> {
    spec_diagnostic_text(e, Seq::<char>::empty(), Seq::<char>::empty())
}

/// What launching decides. The locator resolves identifier, sector size
/// and path first — a missing or malformed argument, then a missing base
/// directory, fail before any file is named, so no file action is ever
/// taken for them. Dispatch then resolves the shape: an unsupported size
/// is reported into the work item's file; a supported one leads to reading
/// the parameter record.
pub open spec fn spec_run(phase: Phase, args: Seq<String>, base_dir: Option<String>) -> (
    StateModel,
    ActionModel,
) {
    match spec_param_from_parent(args) {
        Err(e) => spec_finish_with(e),
        Ok(p) => match base_dir {
            None => spec_finish_with(WorkerError::ConfigError),
            Some(b) => {
                let path = work_item_path(b@, p.uuid@);
                match shape_of_size(p.sector_size as u64) {
                    None => (
                        StateModel::Reporting {
                            path,
                            error: WorkerError::UnrecognizedShapeError,
                        },
                        ActionModel::WriteDiagnostic {
                            path,
                            text: spec_bare_diagnostic(WorkerError::UnrecognizedShapeError),
                        },
                    ),
                    Some(shape) => (
                        StateModel::Dispatched { phase, path, shape },
                        ActionModel::ReadParams { path },
                    ),
                }
            },
        },
    }
}

/// What the parameter record decides once read: a record that fails to
/// open or parse, or that does not validate against the running phase and
/// the dispatched shape, is reported; only a valid record reaches the
/// engine.
pub open spec fn spec_on_params(s: StateModel, pr: Result<PhaseParams, FailureModel>) -> (
    StateModel,
    ActionModel,
) {
    match s {
        StateModel::Dispatched { phase, path, shape } => match pr {
            Err(f) => (
                StateModel::Reporting { path, error: f.kind },
                ActionModel::WriteDiagnostic {
                    path,
                    text: spec_diagnostic_text(f.kind, f.detail, f.backtrace),
                },
            ),
            Ok(p) => if params_valid(phase, shape, p) {
                (
                    StateModel::ParamsRead { phase, path, shape },
                    ActionModel::RunEngine { params: p },
                )
            } else {
                (
                    StateModel::Reporting { path, error: WorkerError::DeserializationError },
                    ActionModel::WriteDiagnostic {
                        path,
                        text: spec_bare_diagnostic(WorkerError::DeserializationError),
                    },
                )
            },
        },
        _ => (s, ActionModel::Exit { code: EXIT_CRASHED }),
    }
}

/// What the engine's return decides: a success payload is framed and
/// persisted over the work item's file; a typed engine failure is passed
/// through as a proving error and reported.
pub open spec fn spec_on_engine(s: StateModel, er: Result<PhaseOutput, FailureModel>) -> (
    StateModel,
    ActionModel,
) {
    match s {
        StateModel::ParamsRead { phase, path, shape } => match er {
            Ok(out) => (
                StateModel::Computed { path },
                ActionModel::WriteResult { path, bytes: result_bytes_spec(out) },
            ),
            Err(f) => (
                StateModel::Reporting { path, error: WorkerError::ProvingError },
                ActionModel::WriteDiagnostic {
                    path,
                    text: spec_diagnostic_text(WorkerError::ProvingError, f.detail, f.backtrace),
                },
            ),
        },
        _ => (s, ActionModel::Exit { code: EXIT_CRASHED }),
    }
}

/// What a finished write decides. Success is returned only after the
/// result write completed: a failed result write is itself an I/O error,
/// reported and exiting non-zero. A failed diagnostic write is swallowed —
/// the invocation still finishes with the error already being reported.
pub open spec fn spec_on_write(s: StateModel, wr: Result<(), FailureModel>) -> (
    StateModel,
    ActionModel,
) {
    match s {
        StateModel::Computed { path } => match wr {
            Ok(_) => (
                StateModel::Finished { outcome: Outcome::Success },
                ActionModel::Exit { code: EXIT_CLEAN },
            ),
            Err(f) => (
                StateModel::Reporting { path, error: WorkerError::IoError },
                ActionModel::WriteDiagnostic {
                    path,
                    text: spec_diagnostic_text(WorkerError::IoError, f.detail, f.backtrace),
                },
            ),
        },
        StateModel::Reporting { path, error } => (
            StateModel::Finished { outcome: outcome_of_error(error) },
            ActionModel::Exit { code: spec_exit_code(outcome_of_error(error)) },
        ),
        _ => (s, ActionModel::Exit { code: EXIT_CRASHED }),
    }
}

/// What an uncontrolled fault decides: where the work item's path is
/// known, a best-effort diagnostic write; where it is not, or where a
/// diagnostic write was already in flight, the process exits with the
/// crash code at once — reporting a crash must never itself cause a second
/// crash, so no reporting step is ever retried.
pub open spec fn spec_on_crash(s: StateModel, f: FailureModel) -> (StateModel, ActionModel) {
    match s {
        StateModel::Dispatched { phase, path, shape } => (
            StateModel::Reporting { path, error: WorkerError::CrashFault },
            ActionModel::WriteDiagnostic {
                path,
                text: spec_diagnostic_text(WorkerError::CrashFault, f.detail, f.backtrace),
            },
        ),
        StateModel::ParamsRead { phase, path, shape } => (
            StateModel::Reporting { path, error: WorkerError::CrashFault },
            ActionModel::WriteDiagnostic {
                path,
                text: spec_diagnostic_text(WorkerError::CrashFault, f.detail, f.backtrace),
            },
        ),
        StateModel::Computed { path } => (
            StateModel::Reporting { path, error: WorkerError::CrashFault },
            ActionModel::WriteDiagnostic {
                path,
                text: spec_diagnostic_text(WorkerError::CrashFault, f.detail, f.backtrace),
            },
        ),
        _ => (
            StateModel::Finished { outcome: Outcome::Crashed },
            ActionModel::Exit { code: EXIT_CRASHED },
        ),
    }
}

/// A well-formed launch followed by a valid parameter record, engine
/// success, and a completed result write walks the machine through
/// dispatch, validation, computation and persistence: the work item's file
/// is asked to be replaced with exactly the framed success payload, and
/// the process exits cleanly only after that write completed.
pub proof fn lemma_clean_success_path(
    phase: Phase,
    args: Seq<String>,
    base: String,
    shape: SectorShape,
    params: PhaseParams,
    out: PhaseOutput,
)
    requires
        spec_param_from_parent(args) is Ok,
        shape_of_size((spec_param_from_parent(args)->Ok_0).sector_size as u64) == Some(shape),
        params_valid(phase, shape, params),
    ensures
        ({
            let (s1, a1) = spec_run(phase, args, Some(base));
            let (s2, a2) = spec_on_params(s1, Ok(params));
            let (s3, a3) = spec_on_engine(s2, Ok(out));
            let (s4, a4) = spec_on_write(s3, Ok(()));
            let path = work_item_path(base@, (spec_param_from_parent(args)->Ok_0).uuid@);
            &&& a1 == (ActionModel::ReadParams { path })
            &&& a2 == (ActionModel::RunEngine { params })
            &&& a3 == (ActionModel::WriteResult { path, bytes: result_bytes_spec(out) })
            &&& s4 == (StateModel::Finished { outcome: Outcome::Success })
            &&& a4 == (ActionModel::Exit { code: EXIT_CLEAN })
        }),
{
}

/// A parameter record whose shape-bound sub-record was produced under
/// another shape than the dispatcher resolved never reaches the proving
/// engine: the read step reports a deserialization failure into the work
/// item's file instead of running the engine.
pub proof fn lemma_shape_mismatch_never_reaches_engine(
    phase: Phase,
    path: Seq<char>,
    shape: SectorShape,
    params: PhaseParams,
)
    requires
        !params_match_shape(params, shape),
    ensures
        ({
            let (s2, a2) = spec_on_params(
                StateModel::Dispatched { phase, path, shape },
                Ok(params),
            );
            &&& !(a2 is RunEngine)
            &&& a2 == (ActionModel::WriteDiagnostic {
                path,
                text: spec_bare_diagnostic(WorkerError::DeserializationError),
            })
            &&& s2 == (StateModel::Reporting {
                path,
                error: WorkerError::DeserializationError,
            })
        }),
{
}

/// Missing base-directory configuration fails the invocation immediately
/// with `ConfigError`: the first and only action is the exit, so no file
/// is ever named, read or written for such a launch.
pub proof fn lemma_missing_config_stops_before_any_file_action(phase: Phase, args: Seq<String>)
    requires
        spec_param_from_parent(args) is Ok,
    ensures
        ({
            let (s, a) = spec_run(phase, args, None);
            &&& s == (StateModel::Finished {
                outcome: Outcome::ReportedError { error: WorkerError::ConfigError },
            })
            &&& a == (ActionModel::Exit { code: EXIT_REPORTED })
        }),
{
}

/// The proving engine runs only on validated parameters: whatever state
/// the machine is in and whatever the read step reported, an engine run is
/// requested only from a dispatched state, for the record the event
/// carried, and only when that record is valid for the running phase and
/// the dispatched shape.
pub proof fn lemma_engine_runs_only_on_valid_params(
    s: StateModel,
    pr: Result<PhaseParams, FailureModel>,
)
    ensures
        ({
            let (s2, a2) = spec_on_params(s, pr);
            a2 matches ActionModel::RunEngine { params } ==> {
                &&& pr == Ok::<PhaseParams, FailureModel>(params)
                &&& s matches StateModel::Dispatched { phase, path, shape } && params_valid(
                    phase,
                    shape,
                    params,
                )
            }
        }),
{
}

/// The process exits cleanly only after the success payload was persisted:
/// no launch, read, engine or crash step ever selects the clean exit code,
/// and the write step selects it exactly when a result write from the
/// computed state completed.
pub proof fn lemma_clean_exit_only_after_persisted_result(
    phase: Phase,
    args: Seq<String>,
    base_dir: Option<String>,
    s: StateModel,
    pr: Result<PhaseParams, FailureModel>,
    er: Result<PhaseOutput, FailureModel>,
    wr: Result<(), FailureModel>,
    f: FailureModel,
)
    ensures
        spec_run(phase, args, base_dir).1 != (ActionModel::Exit { code: EXIT_CLEAN }),
        spec_on_params(s, pr).1 != (ActionModel::Exit { code: EXIT_CLEAN }),
        spec_on_engine(s, er).1 != (ActionModel::Exit { code: EXIT_CLEAN }),
        spec_on_crash(s, f).1 != (ActionModel::Exit { code: EXIT_CLEAN }),
        spec_on_write(s, wr).1 == (ActionModel::Exit { code: EXIT_CLEAN }) ==> s is Computed
            && wr is Ok && spec_on_write(s, wr).0 == (StateModel::Finished {
            outcome: Outcome::Success,
        }),
{
}

/// A crash intercepted while a diagnostic write is already in flight is
/// swallowed: the machine exits with the crash code at once and never
/// starts a second reporting write, so reporting a failure cannot cascade.
pub proof fn lemma_crash_while_reporting_is_swallowed(
    path: Seq<char>,
    error: WorkerError,
    f: FailureModel,
)
    ensures
        ({
            let (s, a) = spec_on_crash(StateModel::Reporting { path, error }, f);
            &&& s == (StateModel::Finished { outcome: Outcome::Crashed })
            &&& a == (ActionModel::Exit { code: EXIT_CRASHED })
        }),
{
}

/// A finished invocation stays finished: no event, not even a crash,
/// reopens it — every failure is terminal and retrying is the parent's
/// decision, never the worker's.
pub proof fn lemma_finished_is_terminal(outcome: Outcome, f: FailureModel)
    ensures
        ({
            let (s, a) = spec_on_crash(StateModel::Finished { outcome }, f);
            &&& s is Finished
            &&& a is Exit
        }),
{
}

/// Finish at once with a reported error.
fn finish_with(e: WorkerError) -> (r: (State, Action))
    ensures
        (r.0@, r.1@) == spec_finish_with(e),
{
    let outcome = if e == WorkerError::CrashFault {
        Outcome::Crashed
    } else {
        Outcome::ReportedError { error: e }
    };
    let code = exit_code(&outcome);
    (State::Finished { outcome }, Action::Exit { code })
}

/// The diagnostic text for an error the worker itself raises.
fn bare_diagnostic(e: WorkerError) -> (r: String)
    ensures
        r@ == spec_bare_diagnostic(e),
{
    let f = bare_failure(e);
    diagnostic_text(&f)
}

/// Start one invocation: resolve the work item from the launch arguments
/// and the base-directory configuration, dispatch the sector size onto a
/// shape, and decide the first action.
pub fn run(phase: Phase, args: &Vec<String>, base_dir: &Option<String>) -> (r: (State, Action))
    ensures
        (r.0@, r.1@) == spec_run(phase, args@, *base_dir),
{
    let located = match param_from_parent(args) {
        Err(e) => {
            return finish_with(e);
        },
        Ok(p) => p,
    };
    let folder = match param_folder(base_dir) {
        None => {
            return finish_with(WorkerError::ConfigError);
        },
        Some(f) => f,
    };
    let path = uuid_path(folder.as_str(), located.uuid.as_str());
    match dispatch(located.sector_size as u64) {
        Err(_) => {
            let text = bare_diagnostic(WorkerError::UnrecognizedShapeError);
            (
                State::Reporting {
                    path: path.clone(),
                    error: WorkerError::UnrecognizedShapeError,
                },
                Action::WriteDiagnostic { path, text },
            )
        },
        Ok(shape) => (
            State::Dispatched { phase, path: path.clone(), shape },
            Action::ReadParams { path },
        ),
    }
}

/// Take the outcome of reading and parsing the parameter record, validate
/// it against the running phase and the dispatched shape, and decide
/// whether the proving engine runs.
pub fn on_params(state: State, params_result: Result<PhaseParams, Failure>) -> (r: (State, Action))
    requires
        state is Dispatched,
    ensures
        (r.0@, r.1@) == spec_on_params(state@, failure_res_view(params_result)),
{
    match state {
        State::Dispatched { phase, path, shape } => match params_result {
            Err(f) => {
                let text = diagnostic_text(&f);
                (
                    State::Reporting { path: path.clone(), error: f.kind },
                    Action::WriteDiagnostic { path, text },
                )
            },
            Ok(params) => match validate_params(phase, shape, &params) {
                Ok(_) => (
                    State::ParamsRead { phase, path, shape },
                    Action::RunEngine { params },
                ),
                Err(_) => {
                    let text = bare_diagnostic(WorkerError::DeserializationError);
                    (
                        State::Reporting {
                            path: path.clone(),
                            error: WorkerError::DeserializationError,
                        },
                        Action::WriteDiagnostic { path, text },
                    )
                },
            },
        },
        other => (other, Action::Exit { code: EXIT_CRASHED }),
    }
}

/// Take the proving engine's return and decide what is persisted: the
/// framed success payload, or the diagnostic for the engine's typed
/// failure.
pub fn on_engine(state: State, engine_result: Result<PhaseOutput, Failure>) -> (r: (State, Action))
    requires
        state is ParamsRead,
    ensures
        (r.0@, r.1@) == spec_on_engine(state@, failure_res_view(engine_result)),
{
    match state {
        State::ParamsRead { phase: _, path, shape: _ } => match engine_result {
            Ok(out) => {
                let bytes = result_bytes(out);
                (
                    State::Computed { path: path.clone() },
                    Action::WriteResult { path, bytes },
                )
            },
            Err(f) => {
                let normalized = Failure {
                    kind: WorkerError::ProvingError,
                    detail: f.detail,
                    backtrace: f.backtrace,
                };
                let text = diagnostic_text(&normalized);
                (
                    State::Reporting { path: path.clone(), error: WorkerError::ProvingError },
                    Action::WriteDiagnostic { path, text },
                )
            },
        },
        other => (other, Action::Exit { code: EXIT_CRASHED }),
    }
}

/// Take the outcome of a file write and finish, or report the I/O failure
/// of a result write. A diagnostic write's own failure is swallowed: the
/// invocation finishes with the error it was reporting either way.
pub fn on_write(state: State, write_result: Result<(), Failure>) -> (r: (State, Action))
    requires
        state is Computed || state is Reporting,
    ensures
        (r.0@, r.1@) == spec_on_write(state@, failure_res_view(write_result)),
{
    match state {
        State::Computed { path } => match write_result {
            Ok(_) => (
                State::Finished { outcome: Outcome::Success },
                Action::Exit { code: EXIT_CLEAN },
            ),
            Err(f) => {
                let normalized = Failure {
                    kind: WorkerError::IoError,
                    detail: f.detail,
                    backtrace: f.backtrace,
                };
                let text = diagnostic_text(&normalized);
                (
                    State::Reporting { path: path.clone(), error: WorkerError::IoError },
                    Action::WriteDiagnostic { path, text },
                )
            },
        },
        State::Reporting { path: _, error } => {
            let outcome = if error == WorkerError::CrashFault {
                Outcome::Crashed
            } else {
                Outcome::ReportedError { error }
            };
            let code = exit_code(&outcome);
            (State::Finished { outcome }, Action::Exit { code })
        },
        other => (other, Action::Exit { code: EXIT_CRASHED }),
    }
}

/// Take an uncontrolled fault, intercepted at the process boundary, and
/// decide the best-effort crash report: a diagnostic write where the work
/// item's path is known and no reporting write was already in flight, and
/// the crash exit otherwise.
pub fn on_crash(state: State, f: Failure) -> (r: (State, Action))
    ensures
        (r.0@, r.1@) == spec_on_crash(state@, f@),
{
    match state {
        State::Dispatched { phase: _, path, shape: _ } => crash_report(path, f),
        State::ParamsRead { phase: _, path, shape: _ } => crash_report(path, f),
        State::Computed { path } => crash_report(path, f),
        _ => (
            State::Finished { outcome: Outcome::Crashed },
            Action::Exit { code: EXIT_CRASHED },
        ),
    }
}

/// The best-effort diagnostic write for a crash at a known path.
fn crash_report(path: String, f: Failure) -> (r: (State, Action))
    ensures
        r.0@ == (StateModel::Reporting { path: path@, error: WorkerError::CrashFault }),
        r.1@ == (ActionModel::WriteDiagnostic {
            path: path@,
            text: spec_diagnostic_text(WorkerError::CrashFault, f.detail@, f.backtrace@),
        }),
{
    let normalized = Failure {
        kind: WorkerError::CrashFault,
        detail: f.detail,
        backtrace: f.backtrace,
    };
    let text = diagnostic_text(&normalized);
    (
        State::Reporting { path: path.clone(), error: WorkerError::CrashFault },
        Action::WriteDiagnostic { path, text },
    )
}

} // verus!
