//! Tests of the entities and the error types on concrete values.

use cog::domain::ledger::{LogEntry, Stream};
use cog::domain::state_machine::{Definition, State, StateMachine, Transition};
use cog::error::{AppError, DomainError, TechnicalError};
use serde_json::Value;

fn entry(seq: i64, payload: &str) -> LogEntry {
    LogEntry { seq, at_millis: 1000 + seq, payload: payload.to_string() }
}

fn seqs_and_payloads(v: &[LogEntry]) -> Vec<(i64, String)> {
    v.iter().map(|e| (e.seq, e.payload.clone())).collect()
}

fn state(name: &str, terminal: bool) -> State {
    State { name: name.to_string(), terminal, description: None }
}

fn edge(from: &str, to: &str) -> Transition {
    Transition { from: from.to_string(), to: to.to_string(), criterion: None, description: None }
}

/// idle -> polling -> processing -> idle, idle -> done (terminal).
fn watch_def() -> Definition {
    Definition {
        states: vec![
            state("idle", false),
            State {
                name: "polling".to_string(),
                terminal: false,
                description: Some("waiting for events".to_string()),
            },
            state("processing", false),
            state("done", true),
        ],
        transitions: vec![
            Transition {
                from: "idle".to_string(),
                to: "polling".to_string(),
                criterion: Some("watch started".to_string()),
                description: None,
            },
            edge("polling", "processing"),
            edge("processing", "idle"),
            edge("idle", "done"),
        ],
        initial: "idle".to_string(),
    }
}

fn unknown_state(e: &DomainError) -> &str {
    match e {
        DomainError::UnknownState { state } => state,
        other => panic!("expected unknown_state, got {other:?}"),
    }
}

// ---------- Ledger ----------

#[test]
fn most_recent_first_reverses_an_appended_stream() {
    let s = Stream::load("events", vec![entry(1, "a"), entry(2, "b"), entry(3, "c")]);
    let out = s.most_recent_first();
    assert_eq!(
        seqs_and_payloads(&out),
        vec![(3, "c".to_string()), (2, "b".to_string()), (1, "a".to_string())]
    );
    assert_eq!(out[0].at_millis, 1003);
}

#[test]
fn most_recent_first_sorts_any_order_stably() {
    let s = Stream::load(
        "events",
        vec![entry(2, "first two"), entry(1, "one"), entry(3, "three"), entry(2, "second two")],
    );
    let out = s.most_recent_first();
    assert_eq!(
        seqs_and_payloads(&out),
        vec![
            (3, "three".to_string()),
            (2, "first two".to_string()),
            (2, "second two".to_string()),
            (1, "one".to_string()),
        ]
    );
}

#[test]
fn most_recent_first_of_empty_stream_is_empty() {
    let s = Stream::load("nothing", Vec::new());
    assert!(s.most_recent_first().is_empty());
}

#[test]
fn require_non_empty_accepts_a_stream_with_entries() {
    let s = Stream::load("events", vec![entry(1, "{}")]);
    assert!(s.require_non_empty().is_ok());
}

#[test]
fn require_non_empty_names_the_empty_stream() {
    let s = Stream::load("nope", Vec::new());
    match s.require_non_empty() {
        Err(DomainError::EmptyStream { stream }) => assert_eq!(stream, "nope"),
        _ => panic!("expected empty_stream"),
    }
}

// ---------- Definition ----------

#[test]
fn valid_definition_passes_validation() {
    assert!(watch_def().validate().is_ok());
}

#[test]
fn unknown_initial_state_is_reported_first() {
    let mut d = watch_def();
    d.initial = "nowhere".to_string();
    d.transitions.push(edge("ghost", "idle"));
    let e = d.validate().unwrap_err();
    assert_eq!(unknown_state(&e), "nowhere");
    assert_eq!(e.code(), "unknown_state");
}

#[test]
fn unknown_edge_source_is_reported_before_its_target() {
    let mut d = watch_def();
    d.transitions.push(edge("ghost", "phantom"));
    let e = d.validate().unwrap_err();
    assert_eq!(unknown_state(&e), "ghost");
}

#[test]
fn unknown_edge_target_is_reported() {
    let mut d = watch_def();
    d.transitions.insert(1, edge("idle", "phantom"));
    d.transitions.push(edge("ghost", "idle"));
    let e = d.validate().unwrap_err();
    assert_eq!(unknown_state(&e), "phantom");
}

// ---------- StateMachine ----------

#[test]
fn define_starts_at_initial_with_its_context() {
    let ctx: Value = serde_json::from_str("{\"cursor\":7}").unwrap();
    let m = StateMachine::define(watch_def(), ctx.clone()).unwrap();
    assert_eq!(m.current, "idle");
    assert_eq!(m.context, ctx);
}

#[test]
fn define_refuses_an_invalid_definition() {
    let mut d = watch_def();
    d.initial = "nowhere".to_string();
    let e = StateMachine::define(d, Value::Null).unwrap_err();
    assert_eq!(unknown_state(&e), "nowhere");
}

#[test]
fn rehydrate_keeps_every_part() {
    let m = StateMachine::rehydrate(watch_def(), "polling".to_string(), Value::Bool(true));
    assert_eq!(m.current, "polling");
    assert_eq!(m.context, Value::Bool(true));
    assert_eq!(m.def.states.len(), 4);
}

#[test]
fn legal_transition_moves_and_keeps_the_context() {
    let m = StateMachine::define(watch_def(), Value::from(5)).unwrap();
    let m = m.transition("polling").unwrap();
    assert_eq!(m.current, "polling");
    assert_eq!(m.context, Value::from(5));
    let m = m.transition("processing").unwrap();
    assert_eq!(m.current, "processing");
}

#[test]
fn transition_to_undeclared_state_is_unknown_state() {
    let m = StateMachine::define(watch_def(), Value::Null).unwrap();
    let e = m.transition("zzz").unwrap_err();
    assert_eq!(unknown_state(&e), "zzz");
}

#[test]
fn transition_without_edge_is_illegal() {
    let m = StateMachine::define(watch_def(), Value::Null).unwrap();
    match m.transition("processing").unwrap_err() {
        DomainError::IllegalTransition { from, to } => {
            assert_eq!(from, "idle");
            assert_eq!(to, "processing");
        }
        other => panic!("expected illegal_transition, got {other:?}"),
    }
}

#[test]
fn unknown_target_wins_over_terminal_source() {
    let m = StateMachine::rehydrate(watch_def(), "done".to_string(), Value::Null);
    let e = m.transition("zzz").unwrap_err();
    assert_eq!(e.code(), "unknown_state");
}

#[test]
fn terminal_state_refuses_every_declared_target() {
    for to in ["idle", "polling", "processing", "done"] {
        let m = StateMachine::rehydrate(watch_def(), "done".to_string(), Value::Null);
        match m.transition(to).unwrap_err() {
            DomainError::IllegalTransition { from, to: t } => {
                assert_eq!(from, "done");
                assert_eq!(t, to);
            }
            other => panic!("expected illegal_transition, got {other:?}"),
        }
    }
}

#[test]
fn with_context_replaces_or_keeps_the_blob() {
    let m = StateMachine::define(watch_def(), Value::from("old")).unwrap();
    let m = m.with_context(None);
    assert_eq!(m.context, Value::from("old"));
    let m = m.with_context(Some(Value::from("new")));
    assert_eq!(m.context, Value::from("new"));
    assert_eq!(m.current, "idle");
}

// ---------- Errors ----------

#[test]
fn domain_error_codes() {
    let s = || "x".to_string();
    assert_eq!(DomainError::EmptyStream { stream: s() }.code(), "empty_stream");
    assert_eq!(DomainError::IllegalTransition { from: s(), to: s() }.code(), "illegal_transition");
    assert_eq!(DomainError::UnknownState { state: s() }.code(), "unknown_state");
    assert_eq!(DomainError::NotInitialized { name: s() }.code(), "not_initialized");
}

#[test]
fn domain_error_messages() {
    assert_eq!(
        DomainError::EmptyStream { stream: "events".to_string() }.message(),
        "stream 'events' is empty"
    );
    assert_eq!(
        DomainError::IllegalTransition { from: "idle".to_string(), to: "done".to_string() }
            .message(),
        "illegal transition from 'idle' to 'done'"
    );
    assert_eq!(
        DomainError::UnknownState { state: "zzz".to_string() }.message(),
        "unknown state 'zzz'"
    );
    assert_eq!(
        DomainError::NotInitialized { name: "w".to_string() }.message(),
        "machine 'w' is not initialized"
    );
}

#[test]
fn technical_error_keeps_its_message() {
    assert_eq!(TechnicalError::new("sqlite: busy".to_string()).message, "sqlite: busy");
}

#[test]
fn app_error_from_each_channel() {
    match AppError::from(DomainError::UnknownState { state: "q".to_string() }) {
        AppError::Domain(e) => assert_eq!(e.code(), "unknown_state"),
        _ => panic!("expected the domain channel"),
    }
    match AppError::from(TechnicalError::new("boom".to_string())) {
        AppError::Technical(e) => assert_eq!(e.message, "boom"),
        _ => panic!("expected the technical channel"),
    }
}
