//! The engine's laws: properties of every run of the loop state machine,
//! proved over `step_model` and whole input traces.
use vstd::prelude::*;

use crate::adapters::CliType;
use crate::engine::{codex_fingerprint, request_stop_spec, step_model, ControlFlags, EngineAction,
    EngineModel, EventModel, InputModel, LoopState, Phase};
use crate::text::spec_contains;

verus! {

/// The state a run reaches from `m0` after consuming `inputs`, oldest first.
pub open spec fn run_model(m0: EngineModel, inputs: Seq<InputModel>) -> EngineModel
    decreases inputs.len(),
{
    if inputs.len() == 0 {
        m0
    } else {
        run_model(step_model(m0, inputs[0]), inputs.skip(1))
    }
}

/// A freshly constructed engine: iteration zero, empty histories, ready to run.
pub open spec fn is_fresh(m: EngineModel) -> bool {
    &&& m.phase is Ready
    &&& m.iteration == 0
    &&& m.events == Seq::<EventModel>::empty()
    &&& m.marks == Seq::<bool>::empty()
    &&& m.actions == Seq::<EngineAction>::empty()
}

/// The iteration an event reports stays within the bound.
pub open spec fn event_within_bound(e: EventModel, max: u32) -> bool {
    match e {
        EventModel::IterationStart { iteration, .. } => iteration <= max,
        EventModel::Output { iteration, .. } => iteration <= max,
        EventModel::Pausing { iteration, .. } => iteration <= max,
        EventModel::Paused { iteration, .. } => iteration <= max,
        EventModel::Resumed { iteration, .. } => iteration <= max,
        EventModel::Completed { iteration, .. } => iteration <= max,
        EventModel::MaxIterationsReached { iteration, .. } => iteration <= max,
        EventModel::Error { iteration, .. } => iteration <= max,
        EventModel::Stopped { .. } => true,
    }
}

/// Some emitted event is an assistant-marked output of iteration `n` whose
/// content carries the completion sentinel.
pub open spec fn sentinel_output_at(m: EngineModel, n: u32) -> bool {
    exists|j: int|
        0 <= j < m.events.len() && m.marks[j] && (m.events[j] matches EventModel::Output {
            iteration,
            content,
            ..
        } && iteration == n && spec_contains(content, m.completion_signal))
}

/// What a terminal outcome certifies.
pub open spec fn done_ok(m: EngineModel, outcome: LoopState) -> bool {
    match outcome {
        LoopState::Idle => true,
        LoopState::Completed { iteration } => iteration == m.iteration && 1 <= iteration
            && sentinel_output_at(m, iteration),
        LoopState::MaxIterationsReached { iteration } => iteration == m.iteration && iteration
            == m.max_iterations,
        LoopState::Failed { iteration } => iteration == m.iteration && 1 <= iteration,
        _ => false,
    }
}

/// A phase in which an iteration has been started.
pub open spec fn active_phase(p: Phase) -> bool {
    p is Spawning || p is Streaming || p is Reaping || p is PostGate || p is PostPaused
}

/// The run invariant.
pub open spec fn inv(m: EngineModel) -> bool {
    &&& m.wf()
    &&& (active_phase(m.phase) ==> 1 <= m.iteration)
    &&& (forall|j: int|
        0 <= j < m.events.len() ==> event_within_bound(#[trigger] m.events[j], m.max_iterations))
    &&& (m.phase matches Phase::Reaping { completed } && completed ==> sentinel_output_at(
        m,
        m.iteration,
    ))
    &&& (m.phase matches Phase::Done { outcome } ==> done_ok(m, outcome))
}

/// The configuration never changes across a step.
pub proof fn lemma_step_config(m: EngineModel, i: InputModel)
    ensures
        step_model(m, i).project_id == m.project_id,
        step_model(m, i).max_iterations == m.max_iterations,
        step_model(m, i).completion_signal == m.completion_signal,
        step_model(m, i).cli == m.cli,
        step_model(m, i).auto_commit == m.auto_commit,
        step_model(m, i).iteration_timeout_ms == m.iteration_timeout_ms,
        step_model(m, i).idle_timeout_ms == m.idle_timeout_ms,
        m.events.len() <= step_model(m, i).events.len(),
{
}

/// A step only appends to the event history.
pub proof fn lemma_step_history(m: EngineModel, i: InputModel)
    requires
        m.marks.len() == m.events.len(),
    ensures
        m.events.len() <= step_model(m, i).events.len(),
        forall|j: int|
            0 <= j < m.events.len() ==> #[trigger] step_model(m, i).events[j] == m.events[j]
                && step_model(m, i).marks[j] == m.marks[j],
{
}

/// A sentinel witness survives any step (events are only appended).
proof fn lemma_sentinel_persists(m: EngineModel, m2: EngineModel, n: u32)
    requires
        sentinel_output_at(m, n),
        m.events.len() <= m2.events.len(),
        m2.completion_signal == m.completion_signal,
        forall|j: int| 0 <= j < m.events.len() ==> #[trigger] m2.events[j] == m.events[j]
            && m2.marks[j] == m.marks[j],
        m2.marks.len() == m2.events.len(),
        m.marks.len() == m.events.len(),
    ensures
        sentinel_output_at(m2, n),
{
    let j = choose|j: int|
        0 <= j < m.events.len() && m.marks[j] && (m.events[j] matches EventModel::Output {
            iteration,
            content,
            ..
        } && iteration == n && spec_contains(content, m.completion_signal));
    assert(m2.events[j] == m.events[j]);
    assert(m2.marks[j] == m.marks[j]);
}

/// One step preserves the run invariant.
pub proof fn lemma_inv_step(m: EngineModel, i: InputModel)
    requires
        inv(m),
    ensures
        inv(step_model(m, i)),
{
    let m2 = step_model(m, i);
    lemma_step_config(m, i);
    lemma_step_history(m, i);
    match m.phase {
        Phase::Reaping { completed } => {
            if completed {
                lemma_sentinel_persists(m, m2, m.iteration);
            }
        },
        Phase::Done { outcome } => {
            match outcome {
                LoopState::Completed { iteration } => {
                    lemma_sentinel_persists(m, m2, iteration);
                },
                _ => {},
            }
        },
        _ => {},
    }
    match m.phase {
        Phase::Streaming { .. } => {
            match i {
                InputModel::StdoutLine { line, now_ms } => {
                    let p = crate::engine::parse_line_model(m.cli, line);
                    if p.is_assistant && spec_contains(p.content, m.completion_signal) {
                        assert(m2.events[m.events.len() as int] matches EventModel::Output {
                            iteration,
                            content,
                            ..
                        } && iteration == m.iteration && spec_contains(
                            content,
                            m.completion_signal,
                        ));
                        assert(m2.marks[m.events.len() as int]);
                        assert(sentinel_output_at(m2, m2.iteration));
                    }
                },
                InputModel::StderrLine { line, now_ms } => {
                    if !codex_fingerprint(m.cli, line) && m.cli == CliType::Codex {
                        let p = crate::engine::parse_line_model(m.cli, line);
                        if p.is_assistant && spec_contains(p.content, m.completion_signal) {
                            assert(m2.events[m.events.len() as int] matches EventModel::Output {
                                iteration,
                                content,
                                ..
                            } && iteration == m.iteration && spec_contains(
                                content,
                                m.completion_signal,
                            ));
                            assert(m2.marks[m.events.len() as int]);
                            assert(sentinel_output_at(m2, m2.iteration));
                        }
                    }
                },
                _ => {},
            }
        },
        _ => {},
    }
}

/// A whole run preserves the invariant.
pub proof fn lemma_inv_run(m0: EngineModel, inputs: Seq<InputModel>)
    requires
        inv(m0),
    ensures
        inv(run_model(m0, inputs)),
    decreases inputs.len(),
{
    if inputs.len() > 0 {
        lemma_inv_step(m0, inputs[0]);
        lemma_inv_run(step_model(m0, inputs[0]), inputs.skip(1));
    }
}

/// A run never changes the configuration.
pub proof fn lemma_run_config(m0: EngineModel, inputs: Seq<InputModel>)
    ensures
        run_model(m0, inputs).project_id == m0.project_id,
        run_model(m0, inputs).max_iterations == m0.max_iterations,
        run_model(m0, inputs).completion_signal == m0.completion_signal,
    decreases inputs.len(),
{
    if inputs.len() > 0 {
        lemma_step_config(m0, inputs[0]);
        lemma_run_config(step_model(m0, inputs[0]), inputs.skip(1));
    }
}

/// A fresh engine satisfies the run invariant.
pub proof fn lemma_inv_fresh(m: EngineModel)
    requires
        is_fresh(m),
    ensures
        inv(m),
{
}

/// Law: on every run, every emitted event reports an iteration within the
/// configured bound.
pub proof fn lemma_iteration_bounded(m0: EngineModel, inputs: Seq<InputModel>, j: int)
    requires
        is_fresh(m0),
        0 <= j < run_model(m0, inputs).events.len(),
    ensures
        event_within_bound(run_model(m0, inputs).events[j], m0.max_iterations),
{
    lemma_inv_fresh(m0);
    lemma_inv_run(m0, inputs);
    lemma_run_config(m0, inputs);
}

/// Law: a run that ends completed at iteration `n` emitted an
/// assistant-marked output of iteration `n` whose content carried the
/// sentinel.
pub proof fn lemma_completed_has_sentinel_output(
    m0: EngineModel,
    inputs: Seq<InputModel>,
    n: u32,
)
    requires
        is_fresh(m0),
        run_model(m0, inputs).phase matches Phase::Done { outcome } && outcome
            == (LoopState::Completed { iteration: n }),
    ensures
        exists|j: int|
            0 <= j < run_model(m0, inputs).events.len() && run_model(m0, inputs).marks[j] && (
            run_model(m0, inputs).events[j] matches EventModel::Output { iteration, content, .. }
                && iteration == n && spec_contains(content, m0.completion_signal)),
        1 <= n <= m0.max_iterations,
{
    lemma_inv_fresh(m0);
    lemma_inv_run(m0, inputs);
    lemma_run_config(m0, inputs);
}

/// Law: a step emits a `Paused` event exactly when it also asks for the pause
/// flag to be cleared — the request is consumed on entering the paused wait,
/// and a later pause needs a fresh request.
pub proof fn lemma_pause_acknowledged(m: EngineModel, i: InputModel)
    ensures
        (exists|j: int|
            m.events.len() <= j < step_model(m, i).events.len() && step_model(m, i).events[j] is Paused)
            <==> (exists|k: int|
            m.actions.len() <= k < step_model(m, i).actions.len() && step_model(m, i).actions[k]
                == EngineAction::ClearPauseFlag),
{
    let m2 = step_model(m, i);
    match m.phase {
        Phase::Ready => {
            match i {
                InputModel::Gate { stop, pause } => {
                    if m.iteration < m.max_iterations && !stop && pause {
                        assert(m2.events[m.events.len() as int] is Paused);
                        assert(m2.actions[m.actions.len() as int]
                            == EngineAction::ClearPauseFlag);
                    }
                },
                _ => {},
            }
        },
        Phase::PostGate => {
            match i {
                InputModel::PostCheck { pause } => {
                    if pause {
                        assert(m2.events[m.events.len() as int] is Paused);
                        assert(m2.actions[m.actions.len() as int]
                            == EngineAction::ClearPauseFlag);
                    }
                },
                _ => {},
            }
        },
        _ => {},
    }
}

/// Law: entering a paused wait never changes the iteration counter.
pub proof fn lemma_pause_keeps_iteration(m: EngineModel, i: InputModel)
    requires
        step_model(m, i).phase is GatePaused || step_model(m, i).phase is PostPaused,
    ensures
        step_model(m, i).iteration == m.iteration,
{
}

/// Law: waiting while paused without a resume or stop changes nothing.
pub proof fn lemma_paused_wait_is_stable(m: EngineModel)
    requires
        m.phase is GatePaused || m.phase is PostPaused,
    ensures
        step_model(m, InputModel::PauseTick { resumed: false, stop: false }) == m,
{
}

/// Law: a pause/resume cycle at the post-iteration gate returns to the
/// pre-spawn gate with the iteration counter unchanged — exactly where a
/// cycle without the pause would stand.
pub proof fn lemma_pause_resume_cycle_post(m: EngineModel, stop: bool)
    requires
        m.phase is PostGate,
    ensures
        ({
            let paused = step_model(m, InputModel::PostCheck { pause: true });
            let resumed = step_model(paused, InputModel::PauseTick { resumed: true, stop });
            &&& resumed.iteration == m.iteration
            &&& resumed.phase is Ready
            &&& step_model(m, InputModel::PostCheck { pause: false }).iteration == m.iteration
            &&& step_model(m, InputModel::PostCheck { pause: false }).phase is Ready
        }),
{
}

/// Law: pausing and resuming before a spawn starts the same iteration that an
/// unpaused gate check would have started.
pub proof fn lemma_pause_resume_cycle_gate(m: EngineModel, stop: bool)
    requires
        m.phase is Ready,
        m.iteration < m.max_iterations,
    ensures
        ({
            let paused = step_model(m, InputModel::Gate { stop: false, pause: true });
            let resumed = step_model(paused, InputModel::PauseTick { resumed: true, stop });
            let direct = step_model(m, InputModel::Gate { stop: false, pause: false });
            &&& resumed.iteration == direct.iteration
            &&& resumed.iteration == m.iteration + 1
            &&& resumed.phase is Spawning
            &&& direct.phase is Spawning
        }),
{
}

/// Law: repeated stop requests are one request — the operation is idempotent.
pub proof fn lemma_stop_idempotent(f: ControlFlags)
    ensures
        request_stop_spec(request_stop_spec(f)) == request_stop_spec(f),
{
}

/// Law: once the engine is terminal, no input changes it, so a second
/// observed stop is without effect.
pub proof fn lemma_terminal_is_final(m: EngineModel, i: InputModel)
    requires
        m.phase is Done,
    ensures
        step_model(m, i) == m,
{
}

/// Law: with a bound of one, a run that ends completed or with the budget
/// exhausted ends at iteration one exactly.
pub proof fn lemma_single_iteration_bound(m0: EngineModel, inputs: Seq<InputModel>)
    requires
        is_fresh(m0),
        m0.max_iterations == 1,
        run_model(m0, inputs).phase matches Phase::Done { outcome } && (outcome is Completed
            || outcome is MaxIterationsReached),
    ensures
        run_model(m0, inputs).phase matches Phase::Done { outcome } && (outcome
            == (LoopState::Completed { iteration: 1u32 }) || outcome
            == (LoopState::MaxIterationsReached { iteration: 1u32 })),
{
    lemma_inv_fresh(m0);
    lemma_inv_run(m0, inputs);
    lemma_run_config(m0, inputs);
}

/// Law: with neither time budget configured, a poll tick never ends an
/// iteration — only completion, stop, or the child's own exit can.
pub proof fn lemma_no_timeout_when_unconfigured(m: EngineModel, now_ms: u64)
    requires
        m.iteration_timeout_ms is None,
        m.idle_timeout_ms is None,
    ensures
        step_model(m, InputModel::TimeTick { now_ms }) == m,
{
}

/// Law: a stop observed while streaming ends the run at once: one input
/// suffices for the terminal event and the kill.
pub proof fn lemma_stop_observed_streaming(m: EngineModel)
    requires
        m.phase is Streaming,
    ensures
        ({
            let m2 = step_model(m, InputModel::StreamStop { stop: true });
            &&& m2.phase == (Phase::Done { outcome: LoopState::Idle })
            &&& m2.events.last() == (EventModel::Stopped { project_id: m.project_id })
            &&& m2.actions.last() == EngineAction::Kill
        }),
{
}

/// Law: a stop observed in a paused wait ends the run at once.
pub proof fn lemma_stop_observed_paused(m: EngineModel)
    requires
        m.phase is GatePaused || m.phase is PostPaused,
    ensures
        ({
            let m2 = step_model(m, InputModel::PauseTick { resumed: false, stop: true });
            &&& m2.phase == (Phase::Done { outcome: LoopState::Idle })
            &&& m2.events.last() == (EventModel::Stopped { project_id: m.project_id })
        }),
{
}

/// Law: when the auto-commit step reports no error, finishing an iteration
/// emits no output event — an empty working tree leaves no trace.
pub proof fn lemma_commit_silent_when_clean(m: EngineModel)
    requires
        m.phase is Reaping,
    ensures
        ({
            let m2 = step_model(m, InputModel::ChildDone { commit_error: None });
            &&& m2.events.len() <= m.events.len() + 1
            &&& forall|j: int|
                m.events.len() <= j < m2.events.len() ==> #[trigger] m2.events[j] is Completed
        }),
{
}

} // verus!

verus! {

/// Law: a poll tick is ignored in every paused wait — a timeout can never
/// fire while the engine is paused.
pub proof fn lemma_no_timeout_while_paused(m: EngineModel, now_ms: u64)
    requires
        m.phase is GatePaused || m.phase is PostPaused,
    ensures
        step_model(m, InputModel::TimeTick { now_ms }) == m,
{
}

/// Law: finishing an iteration leaves the reaping phase, so the auto-commit
/// step gets exactly one chance per iteration.
pub proof fn lemma_one_commit_chance(m: EngineModel, commit_error: Option<Seq<char>>)
    requires
        m.phase is Reaping,
    ensures
        !(step_model(m, InputModel::ChildDone { commit_error }).phase is Reaping),
{
}

} // verus!
