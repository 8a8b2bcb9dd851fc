use ralph_loop::adapters::CliType;
use ralph_loop::engine::{ensure_autodecide_prompt, plan_repo_safety, ControlFlags, EngineAction,
    EngineInput, LoopEngine, LoopEvent, LoopState, Phase, CODEX_GIT_REPO_CHECK_REQUIRED};

const SENTINEL: &str = "<done>COMPLETE</done>";

fn engine(cli: CliType, bound: u32, idle_ms: Option<u64>) -> LoopEngine {
    LoopEngine::new(
        "p1".to_string(),
        "/tmp/project".to_string(),
        cli,
        "hi".to_string(),
        bound,
        false,
        SENTINEL.to_string(),
        None,
        idle_ms,
        false,
    )
}

fn gate_go(e: &mut LoopEngine) -> Vec<LoopEvent> {
    let (evs, acts) = e.step(EngineInput::Gate { stop: false, pause: false });
    assert_eq!(acts, vec![EngineAction::Spawn]);
    let (evs2, acts2) = e.step(EngineInput::SpawnResult { ok: true, error: String::new(), now_ms: 0 });
    assert!(evs2.is_empty());
    assert!(acts2.is_empty());
    evs
}

#[test]
fn codex_happy_path_sentinel_on_stderr() {
    let mut e = engine(CliType::Codex, 3, None);
    let evs = gate_go(&mut e);
    assert_eq!(
        evs,
        vec![LoopEvent::IterationStart { project_id: "p1".to_string(), iteration: 1 }]
    );
    let (evs, acts) = e.step(EngineInput::StderrLine { line: "working...".to_string(), now_ms: 5 });
    assert_eq!(
        evs,
        vec![LoopEvent::Output {
            project_id: "p1".to_string(),
            iteration: 1,
            content: "working...".to_string(),
            is_stderr: false,
        }]
    );
    assert!(acts.is_empty());
    let (evs, acts) = e.step(EngineInput::StderrLine { line: SENTINEL.to_string(), now_ms: 6 });
    assert_eq!(
        evs,
        vec![LoopEvent::Output {
            project_id: "p1".to_string(),
            iteration: 1,
            content: SENTINEL.to_string(),
            is_stderr: false,
        }]
    );
    assert_eq!(acts, vec![EngineAction::Kill]);
    let (evs, acts) = e.step(EngineInput::ChildDone { commit_error: None });
    assert_eq!(
        evs,
        vec![LoopEvent::Completed { project_id: "p1".to_string(), iteration: 1 }]
    );
    assert!(acts.is_empty());
    assert_eq!(e.phase, Phase::Done { outcome: LoopState::Completed { iteration: 1 } });
}

#[test]
fn claude_happy_path_structured_line() {
    let mut e = engine(CliType::Claude, 1, None);
    gate_go(&mut e);
    let line = r#"{"type":"message","role":"assistant","content":"Hello <done>COMPLETE</done>"}"#;
    let (evs, acts) = e.step(EngineInput::StdoutLine { line: line.to_string(), now_ms: 5 });
    assert_eq!(
        evs,
        vec![LoopEvent::Output {
            project_id: "p1".to_string(),
            iteration: 1,
            content: "Hello <done>COMPLETE</done>".to_string(),
            is_stderr: false,
        }]
    );
    assert_eq!(acts, vec![EngineAction::Kill]);
    let (evs, _) = e.step(EngineInput::ChildDone { commit_error: None });
    assert_eq!(
        evs,
        vec![LoopEvent::Completed { project_id: "p1".to_string(), iteration: 1 }]
    );
    assert_eq!(e.phase, Phase::Done { outcome: LoopState::Completed { iteration: 1 } });
}

#[test]
fn idle_timeout_counts_iteration_and_exhausts_budget() {
    let mut e = engine(CliType::Claude, 1, Some(500));
    gate_go(&mut e);
    // Nothing arrives; at 600 ms the idle budget (500 ms) has run out.
    let (evs, acts) = e.step(EngineInput::TimeTick { now_ms: 600 });
    assert_eq!(evs.len(), 1);
    match &evs[0] {
        LoopEvent::Error { iteration, error, .. } => {
            assert_eq!(*iteration, 1);
            assert!(error.contains("idle"));
        }
        other => panic!("expected an error event, got {:?}", other),
    }
    assert_eq!(acts, vec![EngineAction::Kill]);
    let (evs, _) = e.step(EngineInput::ChildDone { commit_error: None });
    assert!(evs.is_empty());
    let (evs, _) = e.step(EngineInput::PostCheck { pause: false });
    assert!(evs.is_empty());
    let (evs, _) = e.step(EngineInput::Gate { stop: false, pause: false });
    assert_eq!(
        evs,
        vec![LoopEvent::MaxIterationsReached { project_id: "p1".to_string(), iteration: 1 }]
    );
    assert_eq!(
        e.phase,
        Phase::Done { outcome: LoopState::MaxIterationsReached { iteration: 1 } }
    );
}

#[test]
fn iteration_timeout_fires_from_spawn_clock() {
    let mut e = LoopEngine::new(
        "p1".to_string(),
        "/tmp/project".to_string(),
        CliType::Codex,
        "hi".to_string(),
        2,
        false,
        SENTINEL.to_string(),
        Some(1000),
        None,
        false,
    );
    gate_go(&mut e);
    let (evs, _) = e.step(EngineInput::TimeTick { now_ms: 999 });
    assert!(evs.is_empty());
    let (evs, acts) = e.step(EngineInput::TimeTick { now_ms: 1000 });
    match &evs[0] {
        LoopEvent::Error { error, .. } => assert!(error.contains("iteration timeout")),
        other => panic!("expected an error event, got {:?}", other),
    }
    assert_eq!(acts, vec![EngineAction::Kill]);
}

#[test]
fn pause_resume_between_iterations() {
    let mut e = engine(CliType::Codex, 5, None);
    // Iterations 1 and 2 end without completion.
    for _ in 0..2 {
        gate_go(&mut e);
        e.step(EngineInput::StdoutClosed);
        e.step(EngineInput::StderrClosed);
        let (evs, _) = e.step(EngineInput::ChildDone { commit_error: None });
        assert!(evs.is_empty());
        if e.phase == Phase::PostGate && e.iteration == 1 {
            e.step(EngineInput::PostCheck { pause: false });
        }
    }
    // With two iterations behind it, the engine honours a pause request.
    let (evs, acts) = e.step(EngineInput::PostCheck { pause: true });
    assert_eq!(
        evs,
        vec![LoopEvent::Paused { project_id: "p1".to_string(), iteration: 2 }]
    );
    assert_eq!(acts, vec![EngineAction::ClearPauseFlag]);
    // Waiting changes nothing.
    let (evs, acts) = e.step(EngineInput::PauseTick { resumed: false, stop: false });
    assert!(evs.is_empty());
    assert!(acts.is_empty());
    // After the resume the iteration counter is unchanged.
    let (evs, _) = e.step(EngineInput::PauseTick { resumed: true, stop: false });
    assert_eq!(
        evs,
        vec![LoopEvent::Resumed { project_id: "p1".to_string(), iteration: 2 }]
    );
    assert_eq!(e.iteration, 2);
    // The next gate starts iteration 3.
    let (evs, _) = e.step(EngineInput::Gate { stop: false, pause: false });
    assert_eq!(
        evs,
        vec![LoopEvent::IterationStart { project_id: "p1".to_string(), iteration: 3 }]
    );
}

#[test]
fn stop_while_paused_settles_idle() {
    let mut e = engine(CliType::Codex, 3, None);
    let (evs, acts) = e.step(EngineInput::Gate { stop: false, pause: true });
    assert_eq!(
        evs,
        vec![LoopEvent::Paused { project_id: "p1".to_string(), iteration: 0 }]
    );
    assert_eq!(acts, vec![EngineAction::ClearPauseFlag]);
    let (evs, _) = e.step(EngineInput::PauseTick { resumed: false, stop: true });
    assert_eq!(evs, vec![LoopEvent::Stopped { project_id: "p1".to_string() }]);
    assert_eq!(e.phase, Phase::Done { outcome: LoopState::Idle });
    // Once terminal, further inputs change nothing.
    let (evs, acts) = e.step(EngineInput::Gate { stop: true, pause: false });
    assert!(evs.is_empty());
    assert!(acts.is_empty());
    assert_eq!(e.phase, Phase::Done { outcome: LoopState::Idle });
}

#[test]
fn codex_trusted_directory_refusal_fails_run() {
    let mut e = engine(CliType::Codex, 3, None);
    gate_go(&mut e);
    let line = "Error: Not inside a trusted directory. Use --skip-git-repo-check to bypass.";
    let (evs, acts) = e.step(EngineInput::StderrLine { line: line.to_string(), now_ms: 5 });
    assert_eq!(
        evs,
        vec![LoopEvent::Error {
            project_id: "p1".to_string(),
            iteration: 1,
            error: CODEX_GIT_REPO_CHECK_REQUIRED.to_string(),
        }]
    );
    assert_eq!(acts, vec![EngineAction::Kill]);
    assert_eq!(e.phase, Phase::Done { outcome: LoopState::Failed { iteration: 1 } });
}

#[test]
fn claude_stderr_is_diagnostic_not_completion() {
    let mut e = engine(CliType::Claude, 1, None);
    gate_go(&mut e);
    let (evs, acts) = e.step(EngineInput::StderrLine { line: SENTINEL.to_string(), now_ms: 5 });
    assert_eq!(
        evs,
        vec![LoopEvent::Output {
            project_id: "p1".to_string(),
            iteration: 1,
            content: SENTINEL.to_string(),
            is_stderr: true,
        }]
    );
    assert!(acts.is_empty());
    assert!(matches!(e.phase, Phase::Streaming { .. }));
}

#[test]
fn spawn_failure_is_counted_and_loop_continues() {
    let mut e = engine(CliType::Codex, 2, None);
    let (_, acts) = e.step(EngineInput::Gate { stop: false, pause: false });
    assert_eq!(acts, vec![EngineAction::Spawn]);
    let (evs, _) = e.step(EngineInput::SpawnResult {
        ok: false,
        error: "no such file".to_string(),
        now_ms: 0,
    });
    assert_eq!(
        evs,
        vec![LoopEvent::Error {
            project_id: "p1".to_string(),
            iteration: 1,
            error: "Failed to spawn CLI: no such file".to_string(),
        }]
    );
    assert_eq!(e.phase, Phase::Ready);
    // The next gate starts iteration 2; no auto-commit ran in between.
    let (evs, _) = e.step(EngineInput::Gate { stop: false, pause: false });
    assert_eq!(
        evs,
        vec![LoopEvent::IterationStart { project_id: "p1".to_string(), iteration: 2 }]
    );
}

#[test]
fn unconfigured_timeouts_never_terminate() {
    let mut e = engine(CliType::Codex, 1, None);
    gate_go(&mut e);
    for now in [1_000u64, 3_600_000, u64::MAX] {
        let (evs, acts) = e.step(EngineInput::TimeTick { now_ms: now });
        assert!(evs.is_empty());
        assert!(acts.is_empty());
    }
    assert!(matches!(e.phase, Phase::Streaming { .. }));
}

#[test]
fn commit_failure_is_nonfatal_diagnostic() {
    let mut e = engine(CliType::Codex, 2, None);
    gate_go(&mut e);
    e.step(EngineInput::StdoutClosed);
    e.step(EngineInput::StderrClosed);
    let (evs, _) = e.step(EngineInput::ChildDone {
        commit_error: Some("git add failed".to_string()),
    });
    assert_eq!(
        evs,
        vec![LoopEvent::Output {
            project_id: "p1".to_string(),
            iteration: 1,
            content: "[auto-commit] git add failed".to_string(),
            is_stderr: true,
        }]
    );
    assert_eq!(e.phase, Phase::PostGate);
}

#[test]
fn stop_observed_while_streaming() {
    let mut e = engine(CliType::Codex, 3, None);
    gate_go(&mut e);
    let (evs, acts) = e.step(EngineInput::StreamStop { stop: true });
    assert_eq!(evs, vec![LoopEvent::Stopped { project_id: "p1".to_string() }]);
    assert_eq!(acts, vec![EngineAction::Kill]);
    assert_eq!(e.phase, Phase::Done { outcome: LoopState::Idle });
}

#[test]
fn control_flags_are_idempotent_and_one_shot() {
    let mut f = ControlFlags::new();
    f.request_stop();
    let once = f;
    f.request_stop();
    assert_eq!(f, once);
    f.request_pause();
    assert!(f.pause_requested);
    f.clear_pause();
    assert!(!f.pause_requested);
    assert!(f.stop_requested);
    f.request_resume();
    assert!(f.take_resume());
    assert!(!f.take_resume());
}

#[test]
fn autodecide_policy_prepended_once() {
    let mut prompt = "  build a game  ".to_string();
    assert!(ensure_autodecide_prompt(&mut prompt));
    assert!(prompt.starts_with("[Ralph Auto-Decision Policy]\n"));
    assert!(prompt.ends_with("\n\nbuild a game"));
    let before = prompt.clone();
    assert!(!ensure_autodecide_prompt(&mut prompt));
    assert_eq!(prompt, before);
}

#[test]
fn repo_safety_plan_matches_launcher_rules() {
    // Auto-init creates the repository and drops a stale skip flag.
    let p = plan_repo_safety(CliType::Codex, true, false, true);
    assert!(p.init_repo);
    assert!(p.is_repo_after);
    assert!(!p.skip_git_repo_check);
    assert!(!p.refuse);
    // Without auto-init, a missing repository makes a Codex run skip the check.
    let p = plan_repo_safety(CliType::Codex, false, false, false);
    assert!(!p.init_repo);
    assert!(p.skip_git_repo_check);
    assert!(!p.refuse);
    // Other tools never refuse and keep the flag as given.
    let p = plan_repo_safety(CliType::OpenCode, false, false, false);
    assert!(!p.skip_git_repo_check);
    assert!(!p.refuse);
    // An existing repository changes nothing.
    let p = plan_repo_safety(CliType::Codex, true, true, true);
    assert!(!p.init_repo);
    assert!(p.skip_git_repo_check);
    assert!(!p.refuse);
}

#[test]
fn opencode_text_event_completes_from_stdout() {
    let mut e = engine(CliType::OpenCode, 2, None);
    gate_go(&mut e);
    // A neutral structured event is emitted but is not assistant output.
    let (evs, acts) = e.step(EngineInput::StdoutLine {
        line: r#"{"type":"step","data":{"message":"thinking"}}"#.to_string(),
        now_ms: 3,
    });
    assert_eq!(
        evs,
        vec![LoopEvent::Output {
            project_id: "p1".to_string(),
            iteration: 1,
            content: "thinking".to_string(),
            is_stderr: false,
        }]
    );
    assert!(acts.is_empty());
    // A text event carrying the sentinel completes the iteration.
    let (evs, acts) = e.step(EngineInput::StdoutLine {
        line: r#"{"type":"text","part":{"text":"done <done>COMPLETE</done>"}}"#.to_string(),
        now_ms: 4,
    });
    assert_eq!(
        evs,
        vec![LoopEvent::Output {
            project_id: "p1".to_string(),
            iteration: 1,
            content: "done <done>COMPLETE</done>".to_string(),
            is_stderr: false,
        }]
    );
    assert_eq!(acts, vec![EngineAction::Kill]);
    let (evs, _) = e.step(EngineInput::ChildDone { commit_error: None });
    assert_eq!(
        evs,
        vec![LoopEvent::Completed { project_id: "p1".to_string(), iteration: 1 }]
    );
}

#[test]
fn budget_exhaustion_counts_every_iteration() {
    let mut e = engine(CliType::Codex, 2, None);
    for expected in 1..=2u32 {
        let (evs, _) = e.step(EngineInput::Gate { stop: false, pause: false });
        assert_eq!(
            evs,
            vec![LoopEvent::IterationStart { project_id: "p1".to_string(), iteration: expected }]
        );
        e.step(EngineInput::SpawnResult { ok: true, error: String::new(), now_ms: 0 });
        e.step(EngineInput::StdoutClosed);
        e.step(EngineInput::StderrClosed);
        e.step(EngineInput::ChildDone { commit_error: None });
        e.step(EngineInput::PostCheck { pause: false });
    }
    let (evs, _) = e.step(EngineInput::Gate { stop: false, pause: false });
    assert_eq!(
        evs,
        vec![LoopEvent::MaxIterationsReached { project_id: "p1".to_string(), iteration: 2 }]
    );
    assert_eq!(
        e.phase,
        Phase::Done { outcome: LoopState::MaxIterationsReached { iteration: 2 } }
    );
}

#[test]
fn stop_beats_pause_at_the_gate() {
    let mut e = engine(CliType::Codex, 3, None);
    let (evs, _) = e.step(EngineInput::Gate { stop: true, pause: true });
    assert_eq!(evs, vec![LoopEvent::Stopped { project_id: "p1".to_string() }]);
    assert_eq!(e.phase, Phase::Done { outcome: LoopState::Idle });
}
