//! Scenario tests: each one runs a command line through the library exactly as
//! the composition root does (parse, JSON checks, use cases), against in-memory
//! stores that live for the whole test, and asserts on the JSON result and the
//! exit code the command would end with.

use cog::application::ports::{LedgerModel, LedgerStore, MachinesModel, StateStore};
use cog::application::usecases::{AddLogEntry, DefineMachine, GetState, QueryLog, Transition};
use cog::domain::ledger::{LogEntry, Stream, StreamSummary};
use cog::domain::state_machine::{Definition, State, StateMachine, Transition as Edge};
use cog::error::{AppError, TechnicalError};
use cog::infra::cli::{self, Command, Usage};
use cog::infra::json::{parse_context, parse_replacement_context, payload_value, validate_json};
use serde_json::Value;
use std::collections::HashMap;

/// A ledger held in memory: each stream's entries in append order.
#[derive(Default)]
struct MemLedger {
    streams: HashMap<String, Vec<LogEntry>>,
}

impl LedgerStore for MemLedger {
    fn ledger(&self) -> LedgerModel {
        unreachable!("the model of a store exists only in proofs")
    }

    fn append(&mut self, stream: &str, at_millis: i64, payload: &str) -> Result<i64, TechnicalError> {
        let entries = self.streams.entry(stream.to_string()).or_default();
        let seq = entries.iter().map(|e| e.seq).max().unwrap_or(0) + 1;
        entries.push(LogEntry { seq, at_millis, payload: payload.to_string() });
        Ok(seq)
    }

    fn load_stream(&self, stream: &str) -> Result<Stream, TechnicalError> {
        let entries = self.streams.get(stream).cloned().unwrap_or_default();
        Ok(Stream::load(stream, entries))
    }

    fn stream_summaries(&self) -> Result<Vec<StreamSummary>, TechnicalError> {
        let mut out: Vec<StreamSummary> = self
            .streams
            .iter()
            .filter(|(_, entries)| !entries.is_empty())
            .map(|(name, entries)| StreamSummary {
                name: name.clone(),
                count: entries.len() as i64,
                last_seq: entries.iter().map(|e| e.seq).max().unwrap_or(0),
                last_at: entries.iter().map(|e| e.at_millis).max().unwrap_or(0),
            })
            .collect();
        out.sort_by(|a, b| a.name.cmp(&b.name));
        Ok(out)
    }
}

/// Machines held in memory, by name.
#[derive(Default)]
struct MemStates {
    machines: HashMap<String, StateMachine>,
}

impl StateStore for MemStates {
    fn machines(&self) -> MachinesModel {
        unreachable!("the model of a store exists only in proofs")
    }

    fn load(&self, name: &str) -> Result<Option<StateMachine>, TechnicalError> {
        Ok(self.machines.get(name).cloned())
    }

    fn save(&mut self, name: &str, machine: &StateMachine) -> Result<(), TechnicalError> {
        self.machines.insert(name.to_string(), machine.clone());
        Ok(())
    }

    fn list(&self) -> Result<Vec<(String, StateMachine)>, TechnicalError> {
        let mut out: Vec<(String, StateMachine)> =
            self.machines.iter().map(|(n, m)| (n.clone(), m.clone())).collect();
        out.sort_by(|a, b| a.0.cmp(&b.0));
        Ok(out)
    }
}

/// One store: its streams and its machines.
#[derive(Default)]
struct Store {
    ledger: MemLedger,
    states: MemStates,
}

fn text(v: &Value, key: &str) -> Result<String, TechnicalError> {
    v.get(key)
        .and_then(Value::as_str)
        .map(str::to_string)
        .ok_or_else(|| TechnicalError::new(format!("invalid definition JSON: missing {key}")))
}

fn opt_text(v: &Value, key: &str) -> Option<String> {
    v.get(key).and_then(Value::as_str).map(str::to_string)
}

/// Read a definition from its JSON text.
fn definition(def_json: &str) -> Result<Definition, TechnicalError> {
    let v: Value = serde_json::from_str(def_json)
        .map_err(|e| TechnicalError::new(format!("invalid definition JSON: {e}")))?;
    let empty = Vec::new();
    let states = v.get("states").and_then(Value::as_array).unwrap_or(&empty);
    let transitions = v.get("transitions").and_then(Value::as_array).unwrap_or(&empty);
    Ok(Definition {
        states: states
            .iter()
            .map(|s| {
                Ok(State {
                    name: text(s, "name")?,
                    terminal: s.get("terminal").and_then(Value::as_bool).unwrap_or(false),
                    description: opt_text(s, "description"),
                })
            })
            .collect::<Result<_, TechnicalError>>()?,
        transitions: transitions
            .iter()
            .map(|t| {
                Ok(Edge {
                    from: text(t, "from")?,
                    to: text(t, "to")?,
                    criterion: opt_text(t, "criterion"),
                    description: opt_text(t, "description"),
                })
            })
            .collect::<Result<_, TechnicalError>>()?,
        initial: text(&v, "initial")?,
    })
}

/// A JSON object with the given members, in order.
fn obj(members: Vec<(&str, Value)>) -> Value {
    let mut m = serde_json::Map::new();
    for (k, v) in members {
        m.insert(k.to_string(), v);
    }
    Value::Object(m)
}

fn dispatch(store: &mut Store, command: Command) -> Result<Value, AppError> {
    Ok(match command {
        Command::LogAdd { stream, payload } => {
            validate_json(&payload)?;
            let mut uc = AddLogEntry { store: &mut store.ledger, at_millis: 1_700_000_000_000 };
            let seq = uc.run(&stream, &payload)?;
            obj(vec![("seq", Value::from(seq))])
        }
        Command::LogQuery { stream } => {
            let uc = QueryLog { store: &store.ledger };
            let entries = uc.run(&stream)?;
            let items: Vec<Value> = entries
                .iter()
                .map(|e| {
                    obj(vec![
                        ("seq", Value::from(e.seq)),
                        ("at", Value::from(e.at_millis.to_string())),
                        ("payload", payload_value(&e.payload)),
                    ])
                })
                .collect();
            obj(vec![("entries", Value::Array(items))])
        }
        Command::FsmDefine { name, def_json, context_json } => {
            let def = definition(&def_json)?;
            let context = parse_context(context_json)?;
            let mut uc = DefineMachine { store: &mut store.states };
            let current = uc.run(&name, def, context)?;
            obj(vec![("name", Value::from(name)), ("current", Value::from(current))])
        }
        Command::FsmTransition { name, to, context_json } => {
            let context = parse_replacement_context(context_json)?;
            let mut uc = Transition { store: &mut store.states };
            let current = uc.run(&name, &to, context)?;
            obj(vec![("name", Value::from(name)), ("current", Value::from(current))])
        }
        Command::FsmState { name } => {
            let uc = GetState { store: &store.states };
            let (current, context) = uc.run(&name)?;
            obj(vec![
                ("name", Value::from(name)),
                ("current", Value::from(current)),
                ("context", context),
            ])
        }
    })
}

/// The JSON result of a failed command.
fn failure(kind: &str, code: &str, message: String) -> Value {
    obj(vec![
        ("ok", Value::Bool(false)),
        (
            "error",
            obj(vec![
                ("kind", Value::from(kind)),
                ("code", Value::from(code)),
                ("message", Value::from(message)),
            ]),
        ),
    ])
}

/// Run `cog <args...>` against `store`; return (exit code, JSON result).
fn run(store: &mut Store, args: &[&str]) -> (i32, Value) {
    let args: Vec<String> = args.iter().map(|a| a.to_string()).collect();
    let inv = match cli::parse(&args) {
        Ok(inv) => inv,
        Err(_) => panic!("not a runnable command: {args:?}"),
    };
    match dispatch(store, inv.command) {
        Ok(value) => (0, obj(vec![("ok", Value::Bool(true)), ("value", value)])),
        Err(AppError::Domain(e)) => (2, failure("domain", e.code(), e.message())),
        Err(AppError::Technical(e)) => (70, failure("technical", "technical", e.message)),
    }
}

/// Parse `cog <args...>` when it is a help request or a usage error; return
/// (exit code, stdout, stderr) as the composition root prints them.
fn run_raw(args: &[&str]) -> (i32, String, String) {
    let args: Vec<String> = args.iter().map(|a| a.to_string()).collect();
    match cli::parse(&args) {
        Ok(_) => panic!("a runnable command: {args:?}"),
        Err(Usage::Help(help)) => (0, format!("{help}\n"), String::new()),
        Err(Usage::Error { sentence, help }) => (64, String::new(), format!("{sentence}\n\n{help}\n")),
    }
}

// ---------- Help / usage channel ----------

#[test]
fn bare_invocation_is_usage_error_with_top_help() {
    let (code, stdout, stderr) = run_raw(&[]);
    assert_eq!(code, 64);
    assert!(stdout.is_empty(), "stdout must stay clean: {stdout:?}");
    assert!(stderr.contains("No command given."));
    assert!(stderr.contains("USAGE:"));
}

#[test]
fn help_flag_prints_top_help_on_stdout_exit_zero() {
    for flag in ["-h", "--help"] {
        let (code, stdout, _) = run_raw(&[flag]);
        assert_eq!(code, 0, "flag {flag}");
        assert!(stdout.contains("USAGE:"), "flag {flag}");
    }
}

#[test]
fn group_help_flag_shows_scoped_help() {
    let (code, stdout, _) = run_raw(&["log", "-h"]);
    assert_eq!(code, 0);
    assert!(stdout.contains("cog log"));
    assert!(stdout.contains("log query"));
    assert!(!stdout.contains("fsm define"), "log help must be scoped");
}

#[test]
fn missing_subcommand_is_usage_error_with_group_help() {
    let (code, _, stderr) = run_raw(&["log"]);
    assert_eq!(code, 64);
    assert!(stderr.contains("needs a subcommand"));
    assert!(stderr.contains("cog log add"));
}

#[test]
fn missing_argument_is_usage_error_with_one_sentence_and_help() {
    let (code, _, stderr) = run_raw(&["log", "add", "stream-only"]);
    assert_eq!(code, 64);
    assert!(stderr.contains("Missing argument: json payload."));
    assert!(stderr.contains("cog log add"));
}

#[test]
fn unknown_command_is_usage_error() {
    let (code, _, stderr) = run_raw(&["bogus", "thing"]);
    assert_eq!(code, 64);
    assert!(stderr.contains("Unknown command 'bogus'."));
}

// ---------- Ledger ----------

#[test]
fn log_add_assigns_monotonic_seq() {
    let mut s = Store::default();
    let (code, v) = run(&mut s, &["log", "add", "events", "{\"a\":1}"]);
    assert_eq!(code, 0);
    assert_eq!(v["ok"], true);
    assert_eq!(v["value"]["seq"], 1);

    let (code, v) = run(&mut s, &["log", "add", "events", "{\"a\":2}"]);
    assert_eq!(code, 0);
    assert_eq!(v["value"]["seq"], 2);
}

#[test]
fn log_query_returns_most_recent_first() {
    let mut s = Store::default();
    run(&mut s, &["log", "add", "events", "{\"a\":1}"]);
    run(&mut s, &["log", "add", "events", "{\"a\":2}"]);

    let (code, v) = run(&mut s, &["log", "query", "events"]);
    assert_eq!(code, 0);
    let entries = v["value"]["entries"].as_array().unwrap();
    assert_eq!(entries.len(), 2);
    assert_eq!(entries[0]["seq"], 2);
    assert_eq!(entries[1]["seq"], 1);
    // payload is round-tripped as JSON, not a string
    assert_eq!(entries[0]["payload"]["a"], 2);
}

#[test]
fn log_query_empty_stream_is_domain_error() {
    let mut s = Store::default();
    let (code, v) = run(&mut s, &["log", "query", "nope"]);
    assert_eq!(code, 2);
    assert_eq!(v["ok"], false);
    assert_eq!(v["error"]["kind"], "domain");
    assert_eq!(v["error"]["code"], "empty_stream");
}

#[test]
fn log_add_non_json_is_technical_error() {
    let mut s = Store::default();
    let (code, v) = run(&mut s, &["log", "add", "events", "not-json"]);
    assert_eq!(code, 70);
    assert_eq!(v["ok"], false);
    assert_eq!(v["error"]["kind"], "technical");
}

// ---------- StateMachine ----------

const DEF: &str = r#"{
    "states": [
        {"name":"idle"},
        {"name":"polling","description":"waiting for events"},
        {"name":"processing"},
        {"name":"done","terminal":true}
    ],
    "transitions": [
        {"from":"idle","to":"polling","criterion":"watch started"},
        {"from":"polling","to":"processing"},
        {"from":"processing","to":"idle"},
        {"from":"idle","to":"done"}
    ],
    "initial": "idle"
}"#;

#[test]
fn fsm_define_starts_at_initial_state() {
    let mut s = Store::default();
    let (code, v) = run(&mut s, &["fsm", "define", "w", DEF]);
    assert_eq!(code, 0);
    assert_eq!(v["value"]["current"], "idle");

    let (code, v) = run(&mut s, &["fsm", "state", "w"]);
    assert_eq!(code, 0);
    assert_eq!(v["value"]["current"], "idle");
}

#[test]
fn fsm_legal_transition_advances_and_persists() {
    let mut s = Store::default();
    run(&mut s, &["fsm", "define", "w", DEF]);

    let (code, v) = run(&mut s, &["fsm", "transition", "w", "polling"]);
    assert_eq!(code, 0);
    assert_eq!(v["value"]["current"], "polling");

    // a later command still sees the advanced state
    let (_, v) = run(&mut s, &["fsm", "state", "w"]);
    assert_eq!(v["value"]["current"], "polling");
}

#[test]
fn fsm_illegal_transition_is_domain_error() {
    let mut s = Store::default();
    run(&mut s, &["fsm", "define", "w", DEF]);
    run(&mut s, &["fsm", "transition", "w", "polling"]);

    let (code, v) = run(&mut s, &["fsm", "transition", "w", "done"]);
    assert_eq!(code, 2);
    assert_eq!(v["error"]["kind"], "domain");
    assert_eq!(v["error"]["code"], "illegal_transition");
}

#[test]
fn fsm_unknown_target_is_domain_error() {
    let mut s = Store::default();
    run(&mut s, &["fsm", "define", "w", DEF]);

    let (code, v) = run(&mut s, &["fsm", "transition", "w", "zzz"]);
    assert_eq!(code, 2);
    assert_eq!(v["error"]["code"], "unknown_state");
}

#[test]
fn fsm_state_of_undefined_machine_is_domain_error() {
    let mut s = Store::default();
    let (code, v) = run(&mut s, &["fsm", "state", "ghost"]);
    assert_eq!(code, 2);
    assert_eq!(v["error"]["code"], "not_initialized");
}

#[test]
fn fsm_terminal_state_blocks_further_transitions() {
    let mut s = Store::default();
    run(&mut s, &["fsm", "define", "w", DEF]);
    run(&mut s, &["fsm", "transition", "w", "done"]); // idle -> done (terminal)

    let (code, v) = run(&mut s, &["fsm", "transition", "w", "polling"]);
    assert_eq!(code, 2);
    assert_eq!(v["error"]["code"], "illegal_transition");
}

// ---------- StateMachine Context (poll cursor) ----------

#[test]
fn fsm_define_with_context_is_returned_by_state() {
    let mut s = Store::default();
    let (code, _) = run(&mut s, &["fsm", "define", "w", DEF, "--context", "{\"ci_head\":\"abc\"}"]);
    assert_eq!(code, 0);

    let (code, v) = run(&mut s, &["fsm", "state", "w"]);
    assert_eq!(code, 0);
    assert_eq!(v["value"]["current"], "idle");
    assert_eq!(v["value"]["context"]["ci_head"], "abc");
}

#[test]
fn fsm_transition_with_context_advances_state_and_replaces_blob() {
    let mut s = Store::default();
    run(&mut s, &["fsm", "define", "w", DEF, "--context", "{\"ci_head\":\"old\"}"]);

    let (code, v) = run(
        &mut s,
        &["fsm", "transition", "w", "polling", "--context", "{\"ci_head\":\"new\"}"],
    );
    assert_eq!(code, 0);
    assert_eq!(v["value"]["current"], "polling");

    // a later command sees both the advanced state and the replaced blob
    let (_, v) = run(&mut s, &["fsm", "state", "w"]);
    assert_eq!(v["value"]["current"], "polling");
    assert_eq!(v["value"]["context"]["ci_head"], "new");
}

#[test]
fn fsm_transition_without_context_preserves_the_blob() {
    let mut s = Store::default();
    run(&mut s, &["fsm", "define", "w", DEF, "--context", "{\"ci_head\":\"keep\"}"]);

    let (code, _) = run(&mut s, &["fsm", "transition", "w", "polling"]);
    assert_eq!(code, 0);

    let (_, v) = run(&mut s, &["fsm", "state", "w"]);
    assert_eq!(v["value"]["current"], "polling");
    assert_eq!(v["value"]["context"]["ci_head"], "keep");
}

#[test]
fn fsm_define_without_context_defaults_to_null() {
    let mut s = Store::default();
    run(&mut s, &["fsm", "define", "w", DEF]);

    let (_, v) = run(&mut s, &["fsm", "state", "w"]);
    assert_eq!(v["value"]["context"], Value::Null);
}

#[test]
fn fsm_invalid_context_json_is_technical_error() {
    let mut s = Store::default();
    let (code, v) = run(&mut s, &["fsm", "define", "w", DEF, "--context", "not-json"]);
    assert_eq!(code, 70);
    assert_eq!(v["ok"], false);
    assert_eq!(v["error"]["kind"], "technical");
}
