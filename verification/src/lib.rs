//! An iterative agent-loop supervisor: the loop engine that drives one
//! project's repeated agent runs — gates, pause/resume/stop, completion
//! detection, timeouts, and the auto-commit hand-off — and the adapter layer
//! that normalises the supported agent tools behind one contract.
//!
//! The engine is a state machine: the embedding application performs the
//! outside work (spawning, stream reading, git) and feeds each observation to
//! `engine::LoopEngine::step`, whose behaviour is the verified image of
//! `engine::step_model`; `laws` proves the properties every run has.
pub mod adapters;
pub mod brainstorm;
pub mod claude;
pub mod codex;
pub mod commit;
pub mod engine;
pub mod json;
pub mod laws;
pub mod opencode;
pub mod text;
