//! The loop engine: a state machine that drives one project's iterative
//! agent execution. The engine owns every decision — gates, pause/resume,
//! stop, completion detection, timeouts, the auto-commit hand-off — while the
//! embedding application performs the outside work (spawning the child,
//! reading its streams, waiting, running git) and reports each observation as
//! an `EngineInput`. Every transition is the verified image of `step_model`.
use vstd::prelude::*;

use crate::adapters::{CliType, ParsedLine, ParsedLineModel};
use crate::claude::{claude_parse, ClaudeCodeAdapter};
use crate::codex::{codex_parse, CodexAdapter};
use crate::json::json_doc_of;
use crate::opencode::{oc_parse, OpenCodeAdapter};
use crate::text::{dec_str, spec_contains, str_contains, trim_spec, trim_str, u64_to_string};

verus! {

/// The engine-level reason string of the Codex trusted-directory refusal.
pub const CODEX_GIT_REPO_CHECK_REQUIRED: &'static str = "codex_git_repo_check_required";

/// Events the engine reports to its sink.
#[derive(Debug, PartialEq)]
pub enum LoopEvent {
    IterationStart { project_id: String, iteration: u32 },
    Output { project_id: String, iteration: u32, content: String, is_stderr: bool },
    Pausing { project_id: String, iteration: u32 },
    Paused { project_id: String, iteration: u32 },
    Resumed { project_id: String, iteration: u32 },
    Completed { project_id: String, iteration: u32 },
    MaxIterationsReached { project_id: String, iteration: u32 },
    Error { project_id: String, iteration: u32, error: String },
    Stopped { project_id: String },
}

/// The mathematical value of a `LoopEvent`.
#[verifier::ext_equal]
pub enum EventModel {
    IterationStart { project_id: Seq<char>, iteration: u32 },
    Output { project_id: Seq<char>, iteration: u32, content: Seq<char>, is_stderr: bool },
    Pausing { project_id: Seq<char>, iteration: u32 },
    Paused { project_id: Seq<char>, iteration: u32 },
    Resumed { project_id: Seq<char>, iteration: u32 },
    Completed { project_id: Seq<char>, iteration: u32 },
    MaxIterationsReached { project_id: Seq<char>, iteration: u32 },
    Error { project_id: Seq<char>, iteration: u32, error: Seq<char> },
    Stopped { project_id: Seq<char> },
}

impl View for LoopEvent {
    type V = EventModel;

    open spec fn view(&self) -> EventModel {
        match self {
            LoopEvent::IterationStart { project_id, iteration } => EventModel::IterationStart {
                project_id: project_id@,
                iteration: *iteration,
            },
            LoopEvent::Output { project_id, iteration, content, is_stderr } => EventModel::Output {
                project_id: project_id@,
                iteration: *iteration,
                content: content@,
                is_stderr: *is_stderr,
            },
            LoopEvent::Pausing { project_id, iteration } => EventModel::Pausing {
                project_id: project_id@,
                iteration: *iteration,
            },
            LoopEvent::Paused { project_id, iteration } => EventModel::Paused {
                project_id: project_id@,
                iteration: *iteration,
            },
            LoopEvent::Resumed { project_id, iteration } => EventModel::Resumed {
                project_id: project_id@,
                iteration: *iteration,
            },
            LoopEvent::Completed { project_id, iteration } => EventModel::Completed {
                project_id: project_id@,
                iteration: *iteration,
            },
            LoopEvent::MaxIterationsReached { project_id, iteration } => EventModel::MaxIterationsReached {
                project_id: project_id@,
                iteration: *iteration,
            },
            LoopEvent::Error { project_id, iteration, error } => EventModel::Error {
                project_id: project_id@,
                iteration: *iteration,
                error: error@,
            },
            LoopEvent::Stopped { project_id } => EventModel::Stopped { project_id: project_id@ },
        }
    }
}

/// The state a finished engine settles in.
#[derive(Debug, Clone, Copy, PartialEq, Eq, Structural)]
pub enum LoopState {
    Idle,
    Running { iteration: u32 },
    Pausing { iteration: u32 },
    Paused { iteration: u32 },
    Completed { iteration: u32 },
    MaxIterationsReached { iteration: u32 },
    Failed { iteration: u32 },
}

/// Where the engine stands between two inputs.
#[derive(Debug, Clone, Copy, PartialEq, Eq, Structural)]
pub enum Phase {
    /// At the pre-spawn gate: the next `Gate` input decides.
    Ready,
    /// In the paused wait at the pre-spawn gate.
    GatePaused,
    /// A spawn was requested; awaiting its result.
    Spawning,
    /// The child is live and its streams are being read.
    Streaming { stdout_open: bool, stderr_open: bool, started_at_ms: u64, last_output_ms: u64 },
    /// The child is being reaped and the auto-commit step runs.
    Reaping { completed: bool },
    /// At the post-iteration gate: the next `PostCheck` input decides.
    PostGate,
    /// In the paused wait at the post-iteration gate.
    PostPaused,
    /// Terminal.
    Done { outcome: LoopState },
}

/// One observation the embedding application reports to the engine.
#[derive(Debug)]
pub enum EngineInput {
    /// A snapshot of the stop and pause flags, read at the pre-spawn gate.
    Gate { stop: bool, pause: bool },
    /// One wait cycle while paused: whether the resume notice fired, and a
    /// stop-flag snapshot.
    PauseTick { resumed: bool, stop: bool },
    /// The outcome of the requested spawn, with the current monotonic clock.
    SpawnResult { ok: bool, error: String, now_ms: u64 },
    /// A stop-flag snapshot taken while streaming.
    StreamStop { stop: bool },
    /// A completed line from the child's standard output.
    StdoutLine { line: String, now_ms: u64 },
    /// A completed line from the child's standard error.
    StderrLine { line: String, now_ms: u64 },
    /// The child's standard output closed.
    StdoutClosed,
    /// The child's standard error closed.
    StderrClosed,
    /// A poll tick while streaming, with the current monotonic clock.
    TimeTick { now_ms: u64 },
    /// The child was reaped and the auto-commit step finished, with its error
    /// if it failed.
    ChildDone { commit_error: Option<String> },
    /// A pause-flag snapshot, read at the post-iteration gate.
    PostCheck { pause: bool },
}

/// The mathematical value of an `EngineInput`.
#[verifier::ext_equal]
pub enum InputModel {
    Gate { stop: bool, pause: bool },
    PauseTick { resumed: bool, stop: bool },
    SpawnResult { ok: bool, error: Seq<char>, now_ms: u64 },
    StreamStop { stop: bool },
    StdoutLine { line: Seq<char>, now_ms: u64 },
    StderrLine { line: Seq<char>, now_ms: u64 },
    StdoutClosed,
    StderrClosed,
    TimeTick { now_ms: u64 },
    ChildDone { commit_error: Option<Seq<char>> },
    PostCheck { pause: bool },
}

impl View for EngineInput {
    type V = InputModel;

    open spec fn view(&self) -> InputModel {
        match self {
            EngineInput::Gate { stop, pause } => InputModel::Gate { stop: *stop, pause: *pause },
            EngineInput::PauseTick { resumed, stop } => InputModel::PauseTick {
                resumed: *resumed,
                stop: *stop,
            },
            EngineInput::SpawnResult { ok, error, now_ms } => InputModel::SpawnResult {
                ok: *ok,
                error: error@,
                now_ms: *now_ms,
            },
            EngineInput::StreamStop { stop } => InputModel::StreamStop { stop: *stop },
            EngineInput::StdoutLine { line, now_ms } => InputModel::StdoutLine {
                line: line@,
                now_ms: *now_ms,
            },
            EngineInput::StderrLine { line, now_ms } => InputModel::StderrLine {
                line: line@,
                now_ms: *now_ms,
            },
            EngineInput::StdoutClosed => InputModel::StdoutClosed,
            EngineInput::StderrClosed => InputModel::StderrClosed,
            EngineInput::TimeTick { now_ms } => InputModel::TimeTick { now_ms: *now_ms },
            EngineInput::ChildDone { commit_error } => InputModel::ChildDone {
                commit_error: match commit_error {
                    Some(e) => Some(e@),
                    None => None,
                },
            },
            EngineInput::PostCheck { pause } => InputModel::PostCheck { pause: *pause },
        }
    }
}

/// What the engine asks the embedding application to do.
#[derive(Debug, Clone, Copy, PartialEq, Eq, Structural)]
pub enum EngineAction {
    /// Spawn the child for the iteration just started.
    Spawn,
    /// Kill the live child.
    Kill,
    /// Clear the shared pause flag: the request was honoured.
    ClearPauseFlag,
}

/// The mathematical value of a `LoopEngine`.
#[verifier::ext_equal]
pub struct EngineModel {
    pub project_id: Seq<char>,
    pub working_dir: Seq<char>,
    pub cli: CliType,
    pub prompt: Seq<char>,
    pub max_iterations: u32,
    pub auto_commit: bool,
    pub completion_signal: Seq<char>,
    pub iteration_timeout_ms: Option<u64>,
    pub idle_timeout_ms: Option<u64>,
    pub skip_git_repo_check: bool,
    pub iteration: u32,
    pub phase: Phase,
    /// Every event emitted so far, in order.
    pub events: Seq<EventModel>,
    /// For each emitted event, whether it reports assistant-originated output.
    pub marks: Seq<bool>,
    /// Every action requested so far, in order.
    pub actions: Seq<EngineAction>,
}

impl EngineModel {
    /// What the executable engine maintains: the iteration counter never
    /// passes the bound, and strictly below it while paused before a spawn.
    pub open spec fn wf(self) -> bool {
        &&& self.iteration <= self.max_iterations
        &&& (self.phase is GatePaused ==> self.iteration < self.max_iterations)
        &&& self.marks.len() == self.events.len()
    }
}

/// How one output line is normalised, by tool.
pub open spec fn parse_line_model(cli: CliType, line: Seq<char>) -> ParsedLineModel {
    match cli {
        CliType::Claude => claude_parse(json_doc_of(line), line),
        CliType::Codex => codex_parse(line),
        CliType::OpenCode => oc_parse(json_doc_of(line), line),
    }
}

/// Normalise one output line with the adapter selected by `cli`.
pub fn parse_line(cli: CliType, line: &str) -> (p: ParsedLine)
    ensures
        p@ == parse_line_model(cli, line@),
{
    match cli {
        CliType::Claude => ClaudeCodeAdapter::new().parse_output_line(line),
        CliType::Codex => CodexAdapter::new().parse_output_line(line),
        CliType::OpenCode => OpenCodeAdapter::new().parse_output_line(line),
    }
}

/// The Codex trusted-directory refusal fingerprint on a diagnostic line.
pub open spec fn codex_fingerprint(cli: CliType, line: Seq<char>) -> bool {
    &&& cli == CliType::Codex
    &&& spec_contains(line, "Not inside a trusted directory"@)
    &&& spec_contains(line, "skip-git-repo-check"@)
}

// ---------------------------------------------------------------------------
// The transition function, one case per phase.
// ---------------------------------------------------------------------------
pub open spec fn with_event(m: EngineModel, e: EventModel, assistant: bool) -> EngineModel {
    EngineModel { events: m.events.push(e), marks: m.marks.push(assistant), ..m }
}

pub open spec fn with_action(m: EngineModel, a: EngineAction) -> EngineModel {
    EngineModel { actions: m.actions.push(a), ..m }
}

pub open spec fn with_phase(m: EngineModel, p: Phase) -> EngineModel {
    EngineModel { phase: p, ..m }
}

/// Start the next iteration: count it, announce it, ask for a spawn.
pub open spec fn start_iteration(m: EngineModel) -> EngineModel {
    let it = (m.iteration + 1) as u32;
    with_action(
        with_phase(
            with_event(
                EngineModel { iteration: it, ..m },
                EventModel::IterationStart { project_id: m.project_id, iteration: it },
                false,
            ),
            Phase::Spawning,
        ),
        EngineAction::Spawn,
    )
}

/// The pre-spawn gate: the bound is checked first, then stop beats pause
/// beats starting the next iteration.
pub open spec fn step_gate(m: EngineModel, stop: bool, pause: bool) -> EngineModel {
    if m.iteration >= m.max_iterations {
        with_phase(
            with_event(
                m,
                EventModel::MaxIterationsReached {
                    project_id: m.project_id,
                    iteration: m.iteration,
                },
                false,
            ),
            Phase::Done { outcome: LoopState::MaxIterationsReached { iteration: m.iteration } },
        )
    } else if stop {
        with_phase(
            with_event(m, EventModel::Stopped { project_id: m.project_id }, false),
            Phase::Done { outcome: LoopState::Idle },
        )
    } else if pause {
        with_action(
            with_phase(
                with_event(
                    m,
                    EventModel::Paused { project_id: m.project_id, iteration: m.iteration },
                    false,
                ),
                Phase::GatePaused,
            ),
            EngineAction::ClearPauseFlag,
        )
    } else {
        start_iteration(m)
    }
}

/// One wait cycle while paused at the pre-spawn gate: a resume starts the
/// next iteration; otherwise a stop ends the run.
pub open spec fn step_pause_tick_gate(m: EngineModel, resumed: bool, stop: bool) -> EngineModel {
    if resumed {
        start_iteration(
            with_event(
                m,
                EventModel::Resumed { project_id: m.project_id, iteration: m.iteration },
                false,
            ),
        )
    } else if stop {
        with_phase(
            with_event(m, EventModel::Stopped { project_id: m.project_id }, false),
            Phase::Done { outcome: LoopState::Idle },
        )
    } else {
        m
    }
}

/// The spawn result: streaming starts on success; a failure is a
/// per-iteration error, and the loop continues from the next gate check.
pub open spec fn step_spawn_result(m: EngineModel, ok: bool, error: Seq<char>, now_ms: u64)
    -> EngineModel {
    if ok {
        with_phase(
            m,
            Phase::Streaming {
                stdout_open: true,
                stderr_open: true,
                started_at_ms: now_ms,
                last_output_ms: now_ms,
            },
        )
    } else {
        with_phase(
            with_event(
                m,
                EventModel::Error {
                    project_id: m.project_id,
                    iteration: m.iteration,
                    error: "Failed to spawn CLI: "@ + error,
                },
                false,
            ),
            Phase::Ready,
        )
    }
}

/// A stop observed while streaming kills the child and ends the run.
pub open spec fn step_stream_stop(m: EngineModel, stop: bool) -> EngineModel {
    if stop {
        with_action(
            with_phase(
                with_event(m, EventModel::Stopped { project_id: m.project_id }, false),
                Phase::Done { outcome: LoopState::Idle },
            ),
            EngineAction::Kill,
        )
    } else {
        m
    }
}

/// Streaming with the last-output clock advanced to `now_ms`.
pub open spec fn touch_output(m: EngineModel, now_ms: u64) -> EngineModel {
    match m.phase {
        Phase::Streaming { stdout_open, stderr_open, started_at_ms, last_output_ms } => with_phase(
            m,
            Phase::Streaming { stdout_open, stderr_open, started_at_ms, last_output_ms: now_ms },
        ),
        _ => m,
    }
}

/// A parsed line emitted as output; the completion sentinel on assistant
/// output kills the child and marks the iteration completed.
pub open spec fn step_parsed_line(m: EngineModel, p: ParsedLineModel, now_ms: u64) -> EngineModel {
    let m1 = with_event(
        touch_output(m, now_ms),
        EventModel::Output {
            project_id: m.project_id,
            iteration: m.iteration,
            content: p.content,
            is_stderr: false,
        },
        p.is_assistant,
    );
    if p.is_assistant && spec_contains(p.content, m.completion_signal) {
        with_action(with_phase(m1, Phase::Reaping { completed: true }), EngineAction::Kill)
    } else {
        m1
    }
}

/// A line from the child's standard output.
pub open spec fn step_stdout_line(m: EngineModel, line: Seq<char>, now_ms: u64) -> EngineModel {
    step_parsed_line(m, parse_line_model(m.cli, line), now_ms)
}

/// A line from the child's standard error: the Codex trusted-directory
/// refusal fails the run; Codex progress is treated as normal output
/// (completion counts there); other tools' diagnostics pass through.
pub open spec fn step_stderr_line(m: EngineModel, line: Seq<char>, now_ms: u64) -> EngineModel {
    if codex_fingerprint(m.cli, line) {
        with_action(
            with_phase(
                with_event(
                    m,
                    EventModel::Error {
                        project_id: m.project_id,
                        iteration: m.iteration,
                        error: "codex_git_repo_check_required"@,
                    },
                    false,
                ),
                Phase::Done { outcome: LoopState::Failed { iteration: m.iteration } },
            ),
            EngineAction::Kill,
        )
    } else if m.cli == CliType::Codex {
        step_parsed_line(m, parse_line_model(m.cli, line), now_ms)
    } else {
        with_event(
            touch_output(m, now_ms),
            EventModel::Output {
                project_id: m.project_id,
                iteration: m.iteration,
                content: line,
                is_stderr: true,
            },
            false,
        )
    }
}

/// A stream closing; when both are exhausted the child is reaped.
pub open spec fn step_stream_closed(m: EngineModel, is_stdout: bool) -> EngineModel {
    match m.phase {
        Phase::Streaming { stdout_open, stderr_open, started_at_ms, last_output_ms } => {
            let so = stdout_open && !is_stdout;
            let se = stderr_open && is_stdout;
            if !so && !se {
                with_phase(m, Phase::Reaping { completed: false })
            } else {
                with_phase(
                    m,
                    Phase::Streaming {
                        stdout_open: so,
                        stderr_open: se,
                        started_at_ms,
                        last_output_ms,
                    },
                )
            }
        },
        _ => m,
    }
}

/// Whether the iteration budget has run out at `now_ms`.
pub open spec fn iteration_expired(m: EngineModel, now_ms: u64) -> bool {
    match m.phase {
        Phase::Streaming { started_at_ms, .. } => match m.iteration_timeout_ms {
            Some(t) => now_ms >= started_at_ms && now_ms - started_at_ms >= t,
            None => false,
        },
        _ => false,
    }
}

/// Whether the idle budget has run out at `now_ms`.
pub open spec fn idle_expired(m: EngineModel, now_ms: u64) -> bool {
    match m.phase {
        Phase::Streaming { last_output_ms, .. } => match m.idle_timeout_ms {
            Some(t) => now_ms >= last_output_ms && now_ms - last_output_ms > t,
            None => false,
        },
        _ => false,
    }
}

/// The timeout message for an exhausted iteration budget of `t` milliseconds.
pub open spec fn iteration_timeout_message(t: u64) -> Seq<char> {
    "iteration timeout: exceeded "@ + dec_str(t as nat) + " ms"@
}

/// The timeout message for an exhausted idle budget of `t` milliseconds.
pub open spec fn idle_timeout_message(t: u64) -> Seq<char> {
    "idle timeout: no output for "@ + dec_str(t as nat) + " ms"@
}

/// A poll tick while streaming: an exhausted budget kills the child, reports
/// a per-iteration error, and ends the iteration; the iteration budget is
/// checked first. With neither budget configured a tick changes nothing.
pub open spec fn step_time_tick(m: EngineModel, now_ms: u64) -> EngineModel {
    if iteration_expired(m, now_ms) {
        with_action(
            with_phase(
                with_event(
                    m,
                    EventModel::Error {
                        project_id: m.project_id,
                        iteration: m.iteration,
                        error: iteration_timeout_message(m.iteration_timeout_ms->Some_0),
                    },
                    false,
                ),
                Phase::Reaping { completed: false },
            ),
            EngineAction::Kill,
        )
    } else if idle_expired(m, now_ms) {
        with_action(
            with_phase(
                with_event(
                    m,
                    EventModel::Error {
                        project_id: m.project_id,
                        iteration: m.iteration,
                        error: idle_timeout_message(m.idle_timeout_ms->Some_0),
                    },
                    false,
                ),
                Phase::Reaping { completed: false },
            ),
            EngineAction::Kill,
        )
    } else {
        m
    }
}

/// The child was reaped and the auto-commit step ran: a commit failure is a
/// non-fatal diagnostic output; completion ends the run, anything else moves
/// to the post-iteration gate.
pub open spec fn step_child_done(m: EngineModel, commit_error: Option<Seq<char>>) -> EngineModel {
    let completed = m.phase matches Phase::Reaping { completed } && completed;
    let m1 = match commit_error {
        Some(e) => with_event(
            m,
            EventModel::Output {
                project_id: m.project_id,
                iteration: m.iteration,
                content: "[auto-commit] "@ + e,
                is_stderr: true,
            },
            false,
        ),
        None => m,
    };
    if completed {
        with_phase(
            with_event(
                m1,
                EventModel::Completed { project_id: m.project_id, iteration: m.iteration },
                false,
            ),
            Phase::Done { outcome: LoopState::Completed { iteration: m.iteration } },
        )
    } else {
        with_phase(m1, Phase::PostGate)
    }
}

/// The post-iteration gate: only a pause is observed here; the bound and the
/// stop flag are checked at the pre-spawn gate that follows.
pub open spec fn step_post_check(m: EngineModel, pause: bool) -> EngineModel {
    if pause {
        with_action(
            with_phase(
                with_event(
                    m,
                    EventModel::Paused { project_id: m.project_id, iteration: m.iteration },
                    false,
                ),
                Phase::PostPaused,
            ),
            EngineAction::ClearPauseFlag,
        )
    } else {
        with_phase(m, Phase::Ready)
    }
}

/// One wait cycle while paused after an iteration: a resume returns to the
/// pre-spawn gate; otherwise a stop ends the run.
pub open spec fn step_pause_tick_post(m: EngineModel, resumed: bool, stop: bool) -> EngineModel {
    if resumed {
        with_phase(
            with_event(
                m,
                EventModel::Resumed { project_id: m.project_id, iteration: m.iteration },
                false,
            ),
            Phase::Ready,
        )
    } else if stop {
        with_phase(
            with_event(m, EventModel::Stopped { project_id: m.project_id }, false),
            Phase::Done { outcome: LoopState::Idle },
        )
    } else {
        m
    }
}

/// The engine's transition function: an input that does not belong to the
/// current phase changes nothing.
pub open spec fn step_model(m: EngineModel, inp: InputModel) -> EngineModel {
    match m.phase {
        Phase::Ready => match inp {
            InputModel::Gate { stop, pause } => step_gate(m, stop, pause),
            _ => m,
        },
        Phase::GatePaused => match inp {
            InputModel::PauseTick { resumed, stop } => step_pause_tick_gate(m, resumed, stop),
            _ => m,
        },
        Phase::Spawning => match inp {
            InputModel::SpawnResult { ok, error, now_ms } => step_spawn_result(
                m,
                ok,
                error,
                now_ms,
            ),
            _ => m,
        },
        Phase::Streaming { .. } => match inp {
            InputModel::StreamStop { stop } => step_stream_stop(m, stop),
            InputModel::StdoutLine { line, now_ms } => step_stdout_line(m, line, now_ms),
            InputModel::StderrLine { line, now_ms } => step_stderr_line(m, line, now_ms),
            InputModel::StdoutClosed => step_stream_closed(m, true),
            InputModel::StderrClosed => step_stream_closed(m, false),
            InputModel::TimeTick { now_ms } => step_time_tick(m, now_ms),
            _ => m,
        },
        Phase::Reaping { .. } => match inp {
            InputModel::ChildDone { commit_error } => step_child_done(m, commit_error),
            _ => m,
        },
        Phase::PostGate => match inp {
            InputModel::PostCheck { pause } => step_post_check(m, pause),
            _ => m,
        },
        Phase::PostPaused => match inp {
            InputModel::PauseTick { resumed, stop } => step_pause_tick_post(m, resumed, stop),
            _ => m,
        },
        Phase::Done { .. } => m,
    }
}

/// The model of a freshly constructed engine.
pub open spec fn init_model(
    project_id: Seq<char>,
    working_dir: Seq<char>,
    cli: CliType,
    prompt: Seq<char>,
    max_iterations: u32,
    auto_commit: bool,
    completion_signal: Seq<char>,
    iteration_timeout_ms: Option<u64>,
    idle_timeout_ms: Option<u64>,
    skip_git_repo_check: bool,
) -> EngineModel {
    EngineModel {
        project_id,
        working_dir,
        cli,
        prompt,
        max_iterations,
        auto_commit,
        completion_signal,
        iteration_timeout_ms,
        idle_timeout_ms,
        skip_git_repo_check,
        iteration: 0,
        phase: Phase::Ready,
        events: Seq::empty(),
        marks: Seq::empty(),
        actions: Seq::empty(),
    }
}

} // verus!

verus! {

/// The wf invariant survives every transition.
pub proof fn lemma_step_model_wf(m: EngineModel, inp: InputModel)
    requires
        m.wf(),
    ensures
        step_model(m, inp).wf(),
{
}

/// The loop engine. The embedding application constructs it, then feeds it
/// observations through `step` and performs the actions `step` returns; the
/// ghost history records every event for the engine's laws.
pub struct LoopEngine {
    pub project_id: String,
    pub working_dir: String,
    pub cli: CliType,
    pub prompt: String,
    pub max_iterations: u32,
    pub auto_commit: bool,
    pub completion_signal: String,
    pub iteration_timeout_ms: Option<u64>,
    pub idle_timeout_ms: Option<u64>,
    pub skip_git_repo_check: bool,
    pub iteration: u32,
    pub phase: Phase,
    pub events: Ghost<Seq<EventModel>>,
    pub marks: Ghost<Seq<bool>>,
    pub actions: Ghost<Seq<EngineAction>>,
}

impl View for LoopEngine {
    type V = EngineModel;

    open spec fn view(&self) -> EngineModel {
        EngineModel {
            project_id: self.project_id@,
            working_dir: self.working_dir@,
            cli: self.cli,
            prompt: self.prompt@,
            max_iterations: self.max_iterations,
            auto_commit: self.auto_commit,
            completion_signal: self.completion_signal@,
            iteration_timeout_ms: self.iteration_timeout_ms,
            idle_timeout_ms: self.idle_timeout_ms,
            skip_git_repo_check: self.skip_git_repo_check,
            iteration: self.iteration,
            phase: self.phase,
            events: self.events@,
            marks: self.marks@,
            actions: self.actions@,
        }
    }
}

impl LoopEngine {
    /// A fresh engine at the pre-spawn gate, with no history.
    pub fn new(
        project_id: String,
        working_dir: String,
        cli: CliType,
        prompt: String,
        max_iterations: u32,
        auto_commit: bool,
        completion_signal: String,
        iteration_timeout_ms: Option<u64>,
        idle_timeout_ms: Option<u64>,
        skip_git_repo_check: bool,
    ) -> (e: LoopEngine)
        ensures
            e@ == init_model(
                project_id@,
                working_dir@,
                cli,
                prompt@,
                max_iterations,
                auto_commit,
                completion_signal@,
                iteration_timeout_ms,
                idle_timeout_ms,
                skip_git_repo_check,
            ),
            e@.wf(),
    {
        let e = LoopEngine {
            project_id,
            working_dir,
            cli,
            prompt,
            max_iterations,
            auto_commit,
            completion_signal,
            iteration_timeout_ms,
            idle_timeout_ms,
            skip_git_repo_check,
            iteration: 0,
            phase: Phase::Ready,
            events: Ghost(Seq::empty()),
            marks: Ghost(Seq::empty()),
            actions: Ghost(Seq::empty()),
        };
        proof {
            assert(e@ =~~= init_model(
                e.project_id@,
                e.working_dir@,
                e.cli,
                e.prompt@,
                e.max_iterations,
                e.auto_commit,
                e.completion_signal@,
                e.iteration_timeout_ms,
                e.idle_timeout_ms,
                e.skip_git_repo_check,
            ));
        }
        e
    }

    /// Record one emitted event in the ghost history.
    fn note_event(&mut self, e: &LoopEvent, assistant: bool)
        ensures
            final(self)@ == with_event(old(self)@, e@, assistant),
    {
        self.events = Ghost(self.events@.push(e@));
        self.marks = Ghost(self.marks@.push(assistant));
        proof {
            assert(final(self)@ =~~= with_event(old(self)@, e@, assistant));
        }
    }

    /// Record one requested action in the ghost history.
    fn note_action(&mut self, a: EngineAction)
        ensures
            final(self)@ == with_action(old(self)@, a),
    {
        self.actions = Ghost(self.actions@.push(a));
        proof {
            assert(final(self)@ =~~= with_action(old(self)@, a));
        }
    }

    /// Count and announce the next iteration and ask for a spawn.
    fn do_start_iteration(&mut self) -> (r: (Vec<LoopEvent>, Vec<EngineAction>))
        requires
            old(self)@.iteration < old(self)@.max_iterations,
        ensures
            final(self)@ == start_iteration(old(self)@),
            r.0@.map_values(|e: LoopEvent| e@) == final(self)@.events.skip(
                old(self)@.events.len() as int,
            ),
            r.1@ == final(self)@.actions.skip(old(self)@.actions.len() as int),
    {
        let mut evs: Vec<LoopEvent> = Vec::new();
        let mut acts: Vec<EngineAction> = Vec::new();
        self.iteration = self.iteration + 1;
        let e = LoopEvent::IterationStart {
            project_id: self.project_id.clone(),
            iteration: self.iteration,
        };
        self.note_event(&e, false);
        evs.push(e);
        self.phase = Phase::Spawning;
        self.note_action(EngineAction::Spawn);
        acts.push(EngineAction::Spawn);
        proof {
            assert(final(self)@ =~~= start_iteration(old(self)@));
            assert(evs@.map_values(|e: LoopEvent| e@) =~= final(self)@.events.skip(
                old(self)@.events.len() as int,
            ));
            assert(acts@ =~= final(self)@.actions.skip(old(self)@.actions.len() as int));
        }
        (evs, acts)
    }

    /// Feed one observation to the engine. Returns the events to publish and
    /// the actions to perform, in order.
    pub fn step(&mut self, input: EngineInput) -> (r: (Vec<LoopEvent>, Vec<EngineAction>))
        requires
            old(self)@.wf(),
        ensures
            final(self)@ == step_model(old(self)@, input@),
            final(self)@.wf(),
            r.0@.map_values(|e: LoopEvent| e@) == final(self)@.events.skip(
                old(self)@.events.len() as int,
            ),
            r.1@ == final(self)@.actions.skip(old(self)@.actions.len() as int),
    {
        proof {
            lemma_step_model_wf(old(self)@, input@);
        }
        let phase = self.phase;
        match phase {
            Phase::Ready => match input {
                EngineInput::Gate { stop, pause } => self.do_gate(stop, pause),
                _ => self.do_nothing(),
            },
            Phase::GatePaused => match input {
                EngineInput::PauseTick { resumed, stop } => self.do_pause_tick_gate(resumed, stop),
                _ => self.do_nothing(),
            },
            Phase::Spawning => match input {
                EngineInput::SpawnResult { ok, error, now_ms } => self.do_spawn_result(
                    ok,
                    error,
                    now_ms,
                ),
                _ => self.do_nothing(),
            },
            Phase::Streaming { .. } => match input {
                EngineInput::StreamStop { stop } => self.do_stream_stop(stop),
                EngineInput::StdoutLine { line, now_ms } => self.do_stdout_line(line, now_ms),
                EngineInput::StderrLine { line, now_ms } => self.do_stderr_line(line, now_ms),
                EngineInput::StdoutClosed => self.do_stream_closed(true),
                EngineInput::StderrClosed => self.do_stream_closed(false),
                EngineInput::TimeTick { now_ms } => self.do_time_tick(now_ms),
                _ => self.do_nothing(),
            },
            Phase::Reaping { .. } => match input {
                EngineInput::ChildDone { commit_error } => self.do_child_done(commit_error),
                _ => self.do_nothing(),
            },
            Phase::PostGate => match input {
                EngineInput::PostCheck { pause } => self.do_post_check(pause),
                _ => self.do_nothing(),
            },
            Phase::PostPaused => match input {
                EngineInput::PauseTick { resumed, stop } => self.do_pause_tick_post(resumed, stop),
                _ => self.do_nothing(),
            },
            Phase::Done { .. } => self.do_nothing(),
        }
    }

    fn do_nothing(&mut self) -> (r: (Vec<LoopEvent>, Vec<EngineAction>))
        ensures
            final(self)@ == old(self)@,
            r.0@.map_values(|e: LoopEvent| e@) == final(self)@.events.skip(
                old(self)@.events.len() as int,
            ),
            r.1@ == final(self)@.actions.skip(old(self)@.actions.len() as int),
    {
        let r = (Vec::new(), Vec::new());
        proof {
            assert(r.0@.map_values(|e: LoopEvent| e@) =~= final(self)@.events.skip(
                old(self)@.events.len() as int,
            ));
            assert(r.1@ =~= final(self)@.actions.skip(old(self)@.actions.len() as int));
        }
        r
    }

    fn do_gate(&mut self, stop: bool, pause: bool) -> (r: (Vec<LoopEvent>, Vec<EngineAction>))
        requires
            old(self)@.wf(),
            old(self)@.phase is Ready,
        ensures
            final(self)@ == step_gate(old(self)@, stop, pause),
            r.0@.map_values(|e: LoopEvent| e@) == final(self)@.events.skip(
                old(self)@.events.len() as int,
            ),
            r.1@ == final(self)@.actions.skip(old(self)@.actions.len() as int),
    {
        if self.iteration >= self.max_iterations {
            let mut evs: Vec<LoopEvent> = Vec::new();
            let e = LoopEvent::MaxIterationsReached {
                project_id: self.project_id.clone(),
                iteration: self.iteration,
            };
            self.note_event(&e, false);
            evs.push(e);
            self.phase = Phase::Done {
                outcome: LoopState::MaxIterationsReached { iteration: self.iteration },
            };
            proof {
                assert(final(self)@ =~~= step_gate(old(self)@, stop, pause));
                assert(evs@.map_values(|e: LoopEvent| e@) =~= final(self)@.events.skip(
                    old(self)@.events.len() as int,
                ));
                assert(Seq::<EngineAction>::empty() =~= final(self)@.actions.skip(
                    old(self)@.actions.len() as int,
                ));
            }
            (evs, Vec::new())
        } else if stop {
            let mut evs: Vec<LoopEvent> = Vec::new();
            let e = LoopEvent::Stopped { project_id: self.project_id.clone() };
            self.note_event(&e, false);
            evs.push(e);
            self.phase = Phase::Done { outcome: LoopState::Idle };
            proof {
                assert(final(self)@ =~~= step_gate(old(self)@, stop, pause));
                assert(evs@.map_values(|e: LoopEvent| e@) =~= final(self)@.events.skip(
                    old(self)@.events.len() as int,
                ));
                assert(Seq::<EngineAction>::empty() =~= final(self)@.actions.skip(
                    old(self)@.actions.len() as int,
                ));
            }
            (evs, Vec::new())
        } else if pause {
            let mut evs: Vec<LoopEvent> = Vec::new();
            let mut acts: Vec<EngineAction> = Vec::new();
            let e = LoopEvent::Paused {
                project_id: self.project_id.clone(),
                iteration: self.iteration,
            };
            self.note_event(&e, false);
            evs.push(e);
            self.phase = Phase::GatePaused;
            self.note_action(EngineAction::ClearPauseFlag);
            acts.push(EngineAction::ClearPauseFlag);
            proof {
                assert(final(self)@ =~~= step_gate(old(self)@, stop, pause));
                assert(evs@.map_values(|e: LoopEvent| e@) =~= final(self)@.events.skip(
                    old(self)@.events.len() as int,
                ));
                assert(acts@ =~= final(self)@.actions.skip(old(self)@.actions.len() as int));
            }
            (evs, acts)
        } else {
            self.do_start_iteration()
        }
    }

    fn do_pause_tick_gate(&mut self, resumed: bool, stop: bool) -> (r: (
        Vec<LoopEvent>,
        Vec<EngineAction>,
    ))
        requires
            old(self)@.wf(),
            old(self)@.phase is GatePaused,
        ensures
            final(self)@ == step_pause_tick_gate(old(self)@, resumed, stop),
            r.0@.map_values(|e: LoopEvent| e@) == final(self)@.events.skip(
                old(self)@.events.len() as int,
            ),
            r.1@ == final(self)@.actions.skip(old(self)@.actions.len() as int),
    {
        if resumed {
            let mut evs: Vec<LoopEvent> = Vec::new();
            let mut acts: Vec<EngineAction> = Vec::new();
            let e = LoopEvent::Resumed {
                project_id: self.project_id.clone(),
                iteration: self.iteration,
            };
            self.note_event(&e, false);
            evs.push(e);
            self.iteration = self.iteration + 1;
            let e2 = LoopEvent::IterationStart {
                project_id: self.project_id.clone(),
                iteration: self.iteration,
            };
            self.note_event(&e2, false);
            evs.push(e2);
            self.phase = Phase::Spawning;
            self.note_action(EngineAction::Spawn);
            acts.push(EngineAction::Spawn);
            proof {
                assert(final(self)@ =~~= step_pause_tick_gate(old(self)@, resumed, stop));
                assert(evs@.map_values(|e: LoopEvent| e@) =~= final(self)@.events.skip(
                    old(self)@.events.len() as int,
                ));
                assert(acts@ =~= final(self)@.actions.skip(old(self)@.actions.len() as int));
            }
            (evs, acts)
        } else if stop {
            let mut evs: Vec<LoopEvent> = Vec::new();
            let e = LoopEvent::Stopped { project_id: self.project_id.clone() };
            self.note_event(&e, false);
            evs.push(e);
            self.phase = Phase::Done { outcome: LoopState::Idle };
            proof {
                assert(final(self)@ =~~= step_pause_tick_gate(old(self)@, resumed, stop));
                assert(evs@.map_values(|e: LoopEvent| e@) =~= final(self)@.events.skip(
                    old(self)@.events.len() as int,
                ));
                assert(Seq::<EngineAction>::empty() =~= final(self)@.actions.skip(
                    old(self)@.actions.len() as int,
                ));
            }
            (evs, Vec::new())
        } else {
            self.do_nothing()
        }
    }

    fn do_spawn_result(&mut self, ok: bool, error: String, now_ms: u64) -> (r: (
        Vec<LoopEvent>,
        Vec<EngineAction>,
    ))
        requires
            old(self)@.phase is Spawning,
        ensures
            final(self)@ == step_spawn_result(old(self)@, ok, error@, now_ms),
            r.0@.map_values(|e: LoopEvent| e@) == final(self)@.events.skip(
                old(self)@.events.len() as int,
            ),
            r.1@ == final(self)@.actions.skip(old(self)@.actions.len() as int),
    {
        if ok {
            self.phase = Phase::Streaming {
                stdout_open: true,
                stderr_open: true,
                started_at_ms: now_ms,
                last_output_ms: now_ms,
            };
            proof {
                assert(final(self)@ =~~= step_spawn_result(old(self)@, ok, error@, now_ms));
            }
            self.do_nothing_keep()
        } else {
            let mut evs: Vec<LoopEvent> = Vec::new();
            let mut msg = "Failed to spawn CLI: ".to_owned();
            msg.append(error.as_str());
            let e = LoopEvent::Error {
                project_id: self.project_id.clone(),
                iteration: self.iteration,
                error: msg,
            };
            self.note_event(&e, false);
            evs.push(e);
            self.phase = Phase::Ready;
            proof {
                assert(final(self)@ =~~= step_spawn_result(old(self)@, ok, error@, now_ms));
                assert(evs@.map_values(|e: LoopEvent| e@) =~= final(self)@.events.skip(
                    old(self)@.events.len() as int,
                ));
                assert(Seq::<EngineAction>::empty() =~= final(self)@.actions.skip(
                    old(self)@.actions.len() as int,
                ));
            }
            (evs, Vec::new())
        }
    }

    /// Empty result vectors for a transition that emits nothing.
    fn do_nothing_keep(&self) -> (r: (Vec<LoopEvent>, Vec<EngineAction>))
        ensures
            r.0@.map_values(|e: LoopEvent| e@) == Seq::<EventModel>::empty(),
            r.1@ == Seq::<EngineAction>::empty(),
    {
        let r = (Vec::new(), Vec::new());
        proof {
            assert(r.0@.map_values(|e: LoopEvent| e@) =~= Seq::<EventModel>::empty());
            assert(r.1@ =~= Seq::<EngineAction>::empty());
        }
        r
    }
}

} // verus!

verus! {

impl LoopEngine {
    fn do_stream_stop(&mut self, stop: bool) -> (r: (Vec<LoopEvent>, Vec<EngineAction>))
        requires
            old(self)@.phase is Streaming,
        ensures
            final(self)@ == step_stream_stop(old(self)@, stop),
            r.0@.map_values(|e: LoopEvent| e@) == final(self)@.events.skip(
                old(self)@.events.len() as int,
            ),
            r.1@ == final(self)@.actions.skip(old(self)@.actions.len() as int),
    {
        if stop {
            let mut evs: Vec<LoopEvent> = Vec::new();
            let mut acts: Vec<EngineAction> = Vec::new();
            let e = LoopEvent::Stopped { project_id: self.project_id.clone() };
            self.note_event(&e, false);
            evs.push(e);
            self.phase = Phase::Done { outcome: LoopState::Idle };
            self.note_action(EngineAction::Kill);
            acts.push(EngineAction::Kill);
            proof {
                assert(final(self)@ =~~= step_stream_stop(old(self)@, stop));
                assert(evs@.map_values(|e: LoopEvent| e@) =~= final(self)@.events.skip(
                    old(self)@.events.len() as int,
                ));
                assert(acts@ =~= final(self)@.actions.skip(old(self)@.actions.len() as int));
            }
            (evs, acts)
        } else {
            self.do_nothing()
        }
    }

    /// Advance the last-output clock while streaming.
    fn touch(&mut self, now_ms: u64)
        requires
            old(self)@.phase is Streaming,
        ensures
            final(self)@ == touch_output(old(self)@, now_ms),
    {
        let phase = self.phase;
        match phase {
            Phase::Streaming { stdout_open, stderr_open, started_at_ms, last_output_ms: _ } => {
                self.phase = Phase::Streaming {
                    stdout_open,
                    stderr_open,
                    started_at_ms,
                    last_output_ms: now_ms,
                };
            },
            _ => {},
        }
        proof {
            assert(final(self)@ =~~= touch_output(old(self)@, now_ms));
        }
    }

    /// Emit one parsed line as output and detect completion on it.
    fn do_parsed_line(&mut self, p: ParsedLine, now_ms: u64) -> (r: (
        Vec<LoopEvent>,
        Vec<EngineAction>,
    ))
        requires
            old(self)@.phase is Streaming,
        ensures
            final(self)@ == step_parsed_line(old(self)@, p@, now_ms),
            r.0@.map_values(|e: LoopEvent| e@) == final(self)@.events.skip(
                old(self)@.events.len() as int,
            ),
            r.1@ == final(self)@.actions.skip(old(self)@.actions.len() as int),
    {
        let mut evs: Vec<LoopEvent> = Vec::new();
        let mut acts: Vec<EngineAction> = Vec::new();
        self.touch(now_ms);
        let completes = p.is_assistant && str_contains(
            p.content.as_str(),
            self.completion_signal.as_str(),
        );
        let is_assistant = p.is_assistant;
        let e = LoopEvent::Output {
            project_id: self.project_id.clone(),
            iteration: self.iteration,
            content: p.content,
            is_stderr: false,
        };
        self.note_event(&e, is_assistant);
        evs.push(e);
        if completes {
            self.phase = Phase::Reaping { completed: true };
            self.note_action(EngineAction::Kill);
            acts.push(EngineAction::Kill);
        }
        proof {
            assert(final(self)@ =~~= step_parsed_line(old(self)@, p@, now_ms));
            assert(evs@.map_values(|e: LoopEvent| e@) =~= final(self)@.events.skip(
                old(self)@.events.len() as int,
            ));
            assert(acts@ =~= final(self)@.actions.skip(old(self)@.actions.len() as int));
        }
        (evs, acts)
    }

    fn do_stdout_line(&mut self, line: String, now_ms: u64) -> (r: (
        Vec<LoopEvent>,
        Vec<EngineAction>,
    ))
        requires
            old(self)@.phase is Streaming,
        ensures
            final(self)@ == step_stdout_line(old(self)@, line@, now_ms),
            r.0@.map_values(|e: LoopEvent| e@) == final(self)@.events.skip(
                old(self)@.events.len() as int,
            ),
            r.1@ == final(self)@.actions.skip(old(self)@.actions.len() as int),
    {
        let p = parse_line(self.cli, line.as_str());
        self.do_parsed_line(p, now_ms)
    }

    fn do_stderr_line(&mut self, line: String, now_ms: u64) -> (r: (
        Vec<LoopEvent>,
        Vec<EngineAction>,
    ))
        requires
            old(self)@.phase is Streaming,
        ensures
            final(self)@ == step_stderr_line(old(self)@, line@, now_ms),
            r.0@.map_values(|e: LoopEvent| e@) == final(self)@.events.skip(
                old(self)@.events.len() as int,
            ),
            r.1@ == final(self)@.actions.skip(old(self)@.actions.len() as int),
    {
        let is_codex = match self.cli {
            CliType::Codex => true,
            _ => false,
        };
        if is_codex && str_contains(line.as_str(), "Not inside a trusted directory")
            && str_contains(line.as_str(), "skip-git-repo-check") {
            let mut evs: Vec<LoopEvent> = Vec::new();
            let mut acts: Vec<EngineAction> = Vec::new();
            let e = LoopEvent::Error {
                project_id: self.project_id.clone(),
                iteration: self.iteration,
                error: "codex_git_repo_check_required".to_owned(),
            };
            self.note_event(&e, false);
            evs.push(e);
            self.phase = Phase::Done {
                outcome: LoopState::Failed { iteration: self.iteration },
            };
            self.note_action(EngineAction::Kill);
            acts.push(EngineAction::Kill);
            proof {
                assert(final(self)@ =~~= step_stderr_line(old(self)@, line@, now_ms));
                assert(evs@.map_values(|e: LoopEvent| e@) =~= final(self)@.events.skip(
                    old(self)@.events.len() as int,
                ));
                assert(acts@ =~= final(self)@.actions.skip(old(self)@.actions.len() as int));
            }
            (evs, acts)
        } else if is_codex {
            let p = parse_line(self.cli, line.as_str());
            self.do_parsed_line(p, now_ms)
        } else {
            let mut evs: Vec<LoopEvent> = Vec::new();
            self.touch(now_ms);
            let e = LoopEvent::Output {
                project_id: self.project_id.clone(),
                iteration: self.iteration,
                content: line,
                is_stderr: true,
            };
            self.note_event(&e, false);
            evs.push(e);
            proof {
                assert(final(self)@ =~~= step_stderr_line(old(self)@, line@, now_ms));
                assert(evs@.map_values(|e: LoopEvent| e@) =~= final(self)@.events.skip(
                    old(self)@.events.len() as int,
                ));
                assert(Seq::<EngineAction>::empty() =~= final(self)@.actions.skip(
                    old(self)@.actions.len() as int,
                ));
            }
            (evs, Vec::new())
        }
    }

    fn do_stream_closed(&mut self, is_stdout: bool) -> (r: (Vec<LoopEvent>, Vec<EngineAction>))
        requires
            old(self)@.phase is Streaming,
        ensures
            final(self)@ == step_stream_closed(old(self)@, is_stdout),
            r.0@.map_values(|e: LoopEvent| e@) == final(self)@.events.skip(
                old(self)@.events.len() as int,
            ),
            r.1@ == final(self)@.actions.skip(old(self)@.actions.len() as int),
    {
        let phase = self.phase;
        match phase {
            Phase::Streaming { stdout_open, stderr_open, started_at_ms, last_output_ms } => {
                let so = stdout_open && !is_stdout;
                let se = stderr_open && is_stdout;
                if !so && !se {
                    self.phase = Phase::Reaping { completed: false };
                } else {
                    self.phase = Phase::Streaming {
                        stdout_open: so,
                        stderr_open: se,
                        started_at_ms,
                        last_output_ms,
                    };
                }
            },
            _ => {},
        }
        proof {
            assert(final(self)@ =~~= step_stream_closed(old(self)@, is_stdout));
        }
        self.do_nothing_keep()
    }

    fn do_time_tick(&mut self, now_ms: u64) -> (r: (Vec<LoopEvent>, Vec<EngineAction>))
        requires
            old(self)@.phase is Streaming,
        ensures
            final(self)@ == step_time_tick(old(self)@, now_ms),
            r.0@.map_values(|e: LoopEvent| e@) == final(self)@.events.skip(
                old(self)@.events.len() as int,
            ),
            r.1@ == final(self)@.actions.skip(old(self)@.actions.len() as int),
    {
        let phase = self.phase;
        let (started_at_ms, last_output_ms): (u64, u64) = match phase {
            Phase::Streaming { started_at_ms, last_output_ms, .. } => (
                started_at_ms,
                last_output_ms,
            ),
            _ => (0, 0),
        };
        let iter_expired: bool = match self.iteration_timeout_ms {
            Some(t) => now_ms >= started_at_ms && now_ms - started_at_ms >= t,
            None => false,
        };
        let idle_hit: bool = match self.idle_timeout_ms {
            Some(t) => now_ms >= last_output_ms && now_ms - last_output_ms > t,
            None => false,
        };
        if iter_expired {
            let t: u64 = match self.iteration_timeout_ms {
                Some(t) => t,
                None => 0,
            };
            let mut msg = "iteration timeout: exceeded ".to_owned();
            msg.append(u64_to_string(t).as_str());
            msg.append(" ms");
            let mut evs: Vec<LoopEvent> = Vec::new();
            let mut acts: Vec<EngineAction> = Vec::new();
            let e = LoopEvent::Error {
                project_id: self.project_id.clone(),
                iteration: self.iteration,
                error: msg,
            };
            self.note_event(&e, false);
            evs.push(e);
            self.phase = Phase::Reaping { completed: false };
            self.note_action(EngineAction::Kill);
            acts.push(EngineAction::Kill);
            proof {
                assert(final(self)@ =~~= step_time_tick(old(self)@, now_ms));
                assert(evs@.map_values(|e: LoopEvent| e@) =~= final(self)@.events.skip(
                    old(self)@.events.len() as int,
                ));
                assert(acts@ =~= final(self)@.actions.skip(old(self)@.actions.len() as int));
            }
            (evs, acts)
        } else if idle_hit {
            let t: u64 = match self.idle_timeout_ms {
                Some(t) => t,
                None => 0,
            };
            let mut msg = "idle timeout: no output for ".to_owned();
            msg.append(u64_to_string(t).as_str());
            msg.append(" ms");
            let mut evs: Vec<LoopEvent> = Vec::new();
            let mut acts: Vec<EngineAction> = Vec::new();
            let e = LoopEvent::Error {
                project_id: self.project_id.clone(),
                iteration: self.iteration,
                error: msg,
            };
            self.note_event(&e, false);
            evs.push(e);
            self.phase = Phase::Reaping { completed: false };
            self.note_action(EngineAction::Kill);
            acts.push(EngineAction::Kill);
            proof {
                assert(final(self)@ =~~= step_time_tick(old(self)@, now_ms));
                assert(evs@.map_values(|e: LoopEvent| e@) =~= final(self)@.events.skip(
                    old(self)@.events.len() as int,
                ));
                assert(acts@ =~= final(self)@.actions.skip(old(self)@.actions.len() as int));
            }
            (evs, acts)
        } else {
            self.do_nothing()
        }
    }

    fn do_child_done(&mut self, commit_error: Option<String>) -> (r: (
        Vec<LoopEvent>,
        Vec<EngineAction>,
    ))
        requires
            old(self)@.phase is Reaping,
        ensures
            final(self)@ == step_child_done(
                old(self)@,
                match commit_error {
                    Some(e) => Some(e@),
                    None => None,
                },
            ),
            r.0@.map_values(|e: LoopEvent| e@) == final(self)@.events.skip(
                old(self)@.events.len() as int,
            ),
            r.1@ == final(self)@.actions.skip(old(self)@.actions.len() as int),
    {
        let phase = self.phase;
        let completed: bool = match phase {
            Phase::Reaping { completed } => completed,
            _ => false,
        };
        let mut evs: Vec<LoopEvent> = Vec::new();
        if let Some(err) = commit_error {
            let mut content = "[auto-commit] ".to_owned();
            content.append(err.as_str());
            let e = LoopEvent::Output {
                project_id: self.project_id.clone(),
                iteration: self.iteration,
                content,
                is_stderr: true,
            };
            self.note_event(&e, false);
            evs.push(e);
        }
        if completed {
            let e = LoopEvent::Completed {
                project_id: self.project_id.clone(),
                iteration: self.iteration,
            };
            self.note_event(&e, false);
            evs.push(e);
            self.phase = Phase::Done {
                outcome: LoopState::Completed { iteration: self.iteration },
            };
        } else {
            self.phase = Phase::PostGate;
        }
        proof {
            assert(final(self)@ =~~= step_child_done(
                old(self)@,
                match commit_error {
                    Some(e) => Some(e@),
                    None => None,
                },
            ));
            assert(evs@.map_values(|e: LoopEvent| e@) =~= final(self)@.events.skip(
                old(self)@.events.len() as int,
            ));
            assert(Seq::<EngineAction>::empty() =~= final(self)@.actions.skip(
                old(self)@.actions.len() as int,
            ));
        }
        (evs, Vec::new())
    }

    fn do_post_check(&mut self, pause: bool) -> (r: (Vec<LoopEvent>, Vec<EngineAction>))
        requires
            old(self)@.phase is PostGate,
        ensures
            final(self)@ == step_post_check(old(self)@, pause),
            r.0@.map_values(|e: LoopEvent| e@) == final(self)@.events.skip(
                old(self)@.events.len() as int,
            ),
            r.1@ == final(self)@.actions.skip(old(self)@.actions.len() as int),
    {
        if pause {
            let mut evs: Vec<LoopEvent> = Vec::new();
            let mut acts: Vec<EngineAction> = Vec::new();
            let e = LoopEvent::Paused {
                project_id: self.project_id.clone(),
                iteration: self.iteration,
            };
            self.note_event(&e, false);
            evs.push(e);
            self.phase = Phase::PostPaused;
            self.note_action(EngineAction::ClearPauseFlag);
            acts.push(EngineAction::ClearPauseFlag);
            proof {
                assert(final(self)@ =~~= step_post_check(old(self)@, pause));
                assert(evs@.map_values(|e: LoopEvent| e@) =~= final(self)@.events.skip(
                    old(self)@.events.len() as int,
                ));
                assert(acts@ =~= final(self)@.actions.skip(old(self)@.actions.len() as int));
            }
            (evs, acts)
        } else {
            self.phase = Phase::Ready;
            proof {
                assert(final(self)@ =~~= step_post_check(old(self)@, pause));
            }
            self.do_nothing_keep()
        }
    }

    fn do_pause_tick_post(&mut self, resumed: bool, stop: bool) -> (r: (
        Vec<LoopEvent>,
        Vec<EngineAction>,
    ))
        requires
            old(self)@.phase is PostPaused,
        ensures
            final(self)@ == step_pause_tick_post(old(self)@, resumed, stop),
            r.0@.map_values(|e: LoopEvent| e@) == final(self)@.events.skip(
                old(self)@.events.len() as int,
            ),
            r.1@ == final(self)@.actions.skip(old(self)@.actions.len() as int),
    {
        if resumed {
            let mut evs: Vec<LoopEvent> = Vec::new();
            let e = LoopEvent::Resumed {
                project_id: self.project_id.clone(),
                iteration: self.iteration,
            };
            self.note_event(&e, false);
            evs.push(e);
            self.phase = Phase::Ready;
            proof {
                assert(final(self)@ =~~= step_pause_tick_post(old(self)@, resumed, stop));
                assert(evs@.map_values(|e: LoopEvent| e@) =~= final(self)@.events.skip(
                    old(self)@.events.len() as int,
                ));
                assert(Seq::<EngineAction>::empty() =~= final(self)@.actions.skip(
                    old(self)@.actions.len() as int,
                ));
            }
            (evs, Vec::new())
        } else if stop {
            let mut evs: Vec<LoopEvent> = Vec::new();
            let e = LoopEvent::Stopped { project_id: self.project_id.clone() };
            self.note_event(&e, false);
            evs.push(e);
            self.phase = Phase::Done { outcome: LoopState::Idle };
            proof {
                assert(final(self)@ =~~= step_pause_tick_post(old(self)@, resumed, stop));
                assert(evs@.map_values(|e: LoopEvent| e@) =~= final(self)@.events.skip(
                    old(self)@.events.len() as int,
                ));
                assert(Seq::<EngineAction>::empty() =~= final(self)@.actions.skip(
                    old(self)@.actions.len() as int,
                ));
            }
            (evs, Vec::new())
        } else {
            self.do_nothing()
        }
    }

    /// The Codex trusted-directory refusal fingerprint on a diagnostic line.
    pub fn is_codex_git_repo_check_error(&self, line: &str) -> (b: bool)
        ensures
            b == codex_fingerprint(self.cli, line@),
    {
        let is_codex = match self.cli {
            CliType::Codex => true,
            _ => false,
        };
        is_codex && str_contains(line, "Not inside a trusted directory") && str_contains(
            line,
            "skip-git-repo-check",
        )
    }
}

} // verus!

verus! {

// ---------------------------------------------------------------------------
// The control surface: the flags outside callers set, and the one operation
// that rewrites a task prompt before a run.
// ---------------------------------------------------------------------------
/// The shared control state: two request flags and the one-shot resume
/// notice. The embedding application holds one of these behind its own
/// synchronisation and feeds snapshots of it to the engine.
#[derive(Clone, Copy, Debug, PartialEq, Eq, Structural)]
pub struct ControlFlags {
    pub pause_requested: bool,
    pub stop_requested: bool,
    pub resume_pending: bool,
}

pub open spec fn request_pause_spec(f: ControlFlags) -> ControlFlags {
    ControlFlags { pause_requested: true, ..f }
}

pub open spec fn request_resume_spec(f: ControlFlags) -> ControlFlags {
    ControlFlags { resume_pending: true, ..f }
}

pub open spec fn request_stop_spec(f: ControlFlags) -> ControlFlags {
    ControlFlags { stop_requested: true, ..f }
}

impl ControlFlags {
    /// Fresh flags: nothing requested.
    pub fn new() -> (f: ControlFlags)
        ensures
            !f.pause_requested && !f.stop_requested && !f.resume_pending,
    {
        ControlFlags { pause_requested: false, stop_requested: false, resume_pending: false }
    }

    /// Ask the engine to pause at its next gate.
    pub fn request_pause(&mut self)
        ensures
            *final(self) == request_pause_spec(*old(self)),
    {
        self.pause_requested = true;
    }

    /// Wake a paused engine.
    pub fn request_resume(&mut self)
        ensures
            *final(self) == request_resume_spec(*old(self)),
    {
        self.resume_pending = true;
    }

    /// Ask the engine to stop; permanent within an engine lifetime.
    pub fn request_stop(&mut self)
        ensures
            *final(self) == request_stop_spec(*old(self)),
    {
        self.stop_requested = true;
    }

    /// Consume the one-shot resume notice.
    pub fn take_resume(&mut self) -> (fired: bool)
        ensures
            fired == old(self).resume_pending,
            final(self).resume_pending == false,
            final(self).pause_requested == old(self).pause_requested,
            final(self).stop_requested == old(self).stop_requested,
    {
        let fired = self.resume_pending;
        self.resume_pending = false;
        fired
    }

    /// Honour the engine's `ClearPauseFlag` action.
    pub fn clear_pause(&mut self)
        ensures
            final(self).pause_requested == false,
            final(self).stop_requested == old(self).stop_requested,
            final(self).resume_pending == old(self).resume_pending,
    {
        self.pause_requested = false;
    }
}

/// The marker under which the auto-decision policy is prepended to a prompt.
pub open spec fn autodecide_marker() -> Seq<char> {
    "[Ralph Auto-Decision Policy]"@
}

/// The auto-decision policy block, marker line first.
pub open spec fn autodecide_policy() -> Seq<char> {
    "[Ralph Auto-Decision Policy]\nYou MUST NOT ask the user any questions during execution.\nAssume the user is away and cannot respond.\nIf multiple valid choices exist, prefer the more maintainable, clear, engineering-oriented option.\nIf required information is missing, make reasonable assumptions and proceed without blocking.\nNever pause for clarification; log assumptions in the output when necessary."@
}

/// Prepend the auto-decision policy to a task prompt that does not carry it
/// yet; reports whether the prompt changed.
pub fn ensure_autodecide_prompt(prompt: &mut String) -> (changed: bool)
    ensures
        changed == !spec_contains(old(prompt)@, autodecide_marker()),
        final(prompt)@ == if changed {
            autodecide_policy() + "\n\n"@ + trim_spec(old(prompt)@)
        } else {
            old(prompt)@
        },
{
    if str_contains(prompt.as_str(), "[Ralph Auto-Decision Policy]") {
        return false;
    }
    let trimmed = trim_str(prompt.as_str()).to_owned();
    let mut built =
        "[Ralph Auto-Decision Policy]\nYou MUST NOT ask the user any questions during execution.\nAssume the user is away and cannot respond.\nIf multiple valid choices exist, prefer the more maintainable, clear, engineering-oriented option.\nIf required information is missing, make reasonable assumptions and proceed without blocking.\nNever pause for clarification; log assumptions in the output when necessary.".to_owned();
    built.append("\n\n");
    built.append(trimmed.as_str());
    *prompt = built;
    true
}

} // verus!

verus! {

/// What the launcher decides before a run about the working directory's
/// repository: whether to initialise one, the skip flag to run with, and
/// whether the run must be refused until the caller sets the skip flag.
#[derive(Clone, Copy, Debug, PartialEq, Eq, Structural)]
pub struct RepoSafetyPlan {
    /// Initialise a repository before the run.
    pub init_repo: bool,
    /// Whether the directory is a repository once the plan is carried out.
    pub is_repo_after: bool,
    /// The skip-repo-safety-check flag the run is started with.
    pub skip_git_repo_check: bool,
    /// Refuse to start: the tool itself would refuse the directory.
    pub refuse: bool,
}

/// Decide how a run treats the working directory's repository state: with
/// auto-init a missing repository is created (and a stale skip flag dropped);
/// without it, a missing repository makes the Codex-style tool run with the
/// skip flag; a Codex run against a missing repository with the skip flag
/// cleared is refused.
pub fn plan_repo_safety(cli: CliType, auto_init_git: bool, is_repo: bool, skip: bool) -> (p:
    RepoSafetyPlan)
    ensures
        p.init_repo == (auto_init_git && !is_repo),
        p.is_repo_after == (is_repo || p.init_repo),
        p.skip_git_repo_check == (if auto_init_git && !is_repo {
            false
        } else if !auto_init_git && !is_repo && cli == CliType::Codex {
            true
        } else {
            skip
        }),
        p.refuse == (cli == CliType::Codex && !p.skip_git_repo_check && !p.is_repo_after),
{
    let is_codex = match cli {
        CliType::Codex => true,
        _ => false,
    };
    let init_repo = auto_init_git && !is_repo;
    let is_repo_after = is_repo || init_repo;
    let skip_git_repo_check = if init_repo {
        false
    } else if !auto_init_git && !is_repo && is_codex {
        true
    } else {
        skip
    };
    let refuse = is_codex && !skip_git_repo_check && !is_repo_after;
    RepoSafetyPlan { init_repo, is_repo_after, skip_git_repo_check, refuse }
}

} // verus!
