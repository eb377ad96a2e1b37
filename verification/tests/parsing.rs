//! Tests of command-line parsing and of the JSON input checks.

use cog::error::AppError;
use cog::infra::cli::{parse, Command, Invocation, Usage, HELP_FSM, HELP_LOG, HELP_TOP};
use cog::infra::json::{
    parse_context, parse_replacement_context, parse_stored_context, payload_value, validate_json,
};
use serde_json::Value;

fn args(a: &[&str]) -> Vec<String> {
    a.iter().map(|s| s.to_string()).collect()
}

fn ok(a: &[&str]) -> Invocation {
    match parse(&args(a)) {
        Ok(inv) => inv,
        Err(_) => panic!("expected a command for {a:?}"),
    }
}

fn usage_error(a: &[&str]) -> (String, &'static str) {
    match parse(&args(a)) {
        Err(Usage::Error { sentence, help }) => (sentence, help),
        _ => panic!("expected a usage error for {a:?}"),
    }
}

fn help(a: &[&str]) -> &'static str {
    match parse(&args(a)) {
        Err(Usage::Help(h)) => h,
        _ => panic!("expected help for {a:?}"),
    }
}

#[test]
fn default_store_is_used_without_option() {
    let inv = ok(&["log", "query", "events"]);
    assert_eq!(inv.store, ".cog/state.db");
    match inv.command {
        Command::LogQuery { stream } => assert_eq!(stream, "events"),
        _ => panic!("expected log query"),
    }
}

#[test]
fn store_option_anywhere_and_last_one_wins() {
    let inv = ok(&["--store", "a.db", "log", "add", "s", "{}", "--store", "b.db"]);
    assert_eq!(inv.store, "b.db");
    match inv.command {
        Command::LogAdd { stream, payload } => {
            assert_eq!(stream, "s");
            assert_eq!(payload, "{}");
        }
        _ => panic!("expected log add"),
    }
}

#[test]
fn store_option_takes_the_next_argument_even_a_flag() {
    let inv = ok(&["--store", "--help", "fsm", "state", "w"]);
    assert_eq!(inv.store, "--help");
    match inv.command {
        Command::FsmState { name } => assert_eq!(name, "w"),
        _ => panic!("expected fsm state"),
    }
}

#[test]
fn dangling_store_option_is_a_usage_error() {
    let (sentence, h) = usage_error(&["log", "query", "s", "--store"]);
    assert_eq!(sentence, "Option --store expects a path.");
    assert_eq!(h, HELP_TOP);
}

#[test]
fn dangling_context_option_is_a_usage_error_even_with_help() {
    let (sentence, h) = usage_error(&["-h", "fsm", "define", "--context"]);
    assert_eq!(sentence, "Option --context expects a JSON blob.");
    assert_eq!(h, HELP_FSM);
}

#[test]
fn context_option_is_carried_by_define_and_transition() {
    match ok(&["fsm", "define", "w", "{}", "--context", "{\"k\":1}"]).command {
        Command::FsmDefine { name, def_json, context_json } => {
            assert_eq!(name, "w");
            assert_eq!(def_json, "{}");
            assert_eq!(context_json.as_deref(), Some("{\"k\":1}"));
        }
        _ => panic!("expected fsm define"),
    }
    match ok(&["fsm", "transition", "w", "done"]).command {
        Command::FsmTransition { name, to, context_json } => {
            assert_eq!(name, "w");
            assert_eq!(to, "done");
            assert!(context_json.is_none());
        }
        _ => panic!("expected fsm transition"),
    }
}

#[test]
fn help_is_scoped_to_the_group() {
    assert_eq!(help(&["-h"]), HELP_TOP);
    assert_eq!(help(&["log", "--help"]), HELP_LOG);
    assert_eq!(help(&["fsm", "transition", "-h"]), HELP_FSM);
    assert_eq!(help(&["bogus", "-h"]), HELP_TOP);
}

#[test]
fn trailing_help_flag_wins_over_missing_arguments() {
    assert_eq!(help(&["log", "add", "-h"]), HELP_LOG);
    assert_eq!(help(&["fsm", "define", "w", "--help"]), HELP_FSM);
}

#[test]
fn fsm_without_subcommand_is_a_usage_error() {
    let (sentence, h) = usage_error(&["fsm", "explode"]);
    assert_eq!(sentence, "Command 'fsm' needs a subcommand (define, transition or state).");
    assert_eq!(h, HELP_FSM);
}

#[test]
fn log_without_subcommand_names_its_choices() {
    let (sentence, h) = usage_error(&["log"]);
    assert_eq!(sentence, "Command 'log' needs a subcommand (add or query).");
    assert_eq!(h, HELP_LOG);
}

#[test]
fn missing_arguments_are_named_in_order() {
    assert_eq!(usage_error(&["log", "add"]).0, "Missing argument: stream.");
    assert_eq!(usage_error(&["log", "query"]).0, "Missing argument: stream.");
    assert_eq!(usage_error(&["fsm", "define", "w"]).0, "Missing argument: json definition.");
    assert_eq!(usage_error(&["fsm", "transition", "w"]).0, "Missing argument: target state.");
    assert_eq!(usage_error(&["fsm", "state"]).0, "Missing argument: name.");
}

#[test]
fn empty_group_is_no_command() {
    let (sentence, h) = usage_error(&[""]);
    assert_eq!(sentence, "No command given.");
    assert_eq!(h, HELP_TOP);
}

#[test]
fn unknown_group_is_named() {
    let (sentence, h) = usage_error(&["fsmx", "state", "w"]);
    assert_eq!(sentence, "Unknown command 'fsmx'.");
    assert_eq!(h, HELP_TOP);
}

// ---------- JSON input ----------

#[test]
fn valid_payload_passes() {
    assert!(validate_json("{\"a\":[1,2]}").is_ok());
    assert!(validate_json("42").is_ok());
}

#[test]
fn invalid_payload_reports_the_parser_error() {
    let expected = serde_json::from_str::<Value>("not-json").unwrap_err().to_string();
    match validate_json("not-json") {
        Err(AppError::Technical(e)) => {
            assert_eq!(e.message, format!("payload is not valid JSON: {expected}"))
        }
        _ => panic!("expected a technical error"),
    }
}

#[test]
fn absent_context_is_null() {
    assert_eq!(parse_context(None).unwrap(), Value::Null);
}

#[test]
fn given_context_is_parsed() {
    let v = parse_context(Some("{\"ci_head\":\"abc\"}".to_string())).unwrap();
    assert_eq!(v["ci_head"], "abc");
}

#[test]
fn invalid_context_reports_the_parser_error() {
    let expected = serde_json::from_str::<Value>("{oops").unwrap_err().to_string();
    match parse_context(Some("{oops".to_string())) {
        Err(AppError::Technical(e)) => {
            assert_eq!(e.message, format!("invalid context JSON: {expected}"))
        }
        _ => panic!("expected a technical error"),
    }
}

#[test]
fn replacement_context_is_optional() {
    assert!(parse_replacement_context(None).unwrap().is_none());
    let v = parse_replacement_context(Some("[1]".to_string())).unwrap().unwrap();
    assert_eq!(v[0], 1);
    assert!(parse_replacement_context(Some("[".to_string())).is_err());
}

#[test]
fn inserting_a_store_option_changes_only_the_store() {
    let base = ["fsm", "transition", "w", "done", "--context", "{}"];
    let plain = ok(&base);
    assert_eq!(plain.store, ".cog/state.db");
    for k in [0usize, 1, 2, 3, 4, 6] {
        let mut a: Vec<&str> = base.to_vec();
        a.insert(k, "p.db");
        a.insert(k, "--store");
        let inv = ok(&a);
        assert_eq!(inv.store, "p.db", "at {k}");
        match inv.command {
            Command::FsmTransition { name, to, context_json } => {
                assert_eq!((name.as_str(), to.as_str()), ("w", "done"));
                assert_eq!(context_json.as_deref(), Some("{}"));
            }
            _ => panic!("expected fsm transition"),
        }
    }
    let mut bad = vec!["log", "add", "s"];
    assert_eq!(usage_error(&bad).0, "Missing argument: json payload.");
    bad.insert(1, "x.db");
    bad.insert(1, "--store");
    assert_eq!(usage_error(&bad).0, "Missing argument: json payload.");
}

#[test]
fn stored_payload_is_json_when_it_parses_and_text_otherwise() {
    assert_eq!(payload_value("{\"a\":2}")["a"], 2);
    assert_eq!(payload_value("not json"), Value::String("not json".to_string()));
}

#[test]
fn stored_context_that_does_not_parse_is_corrupt() {
    assert_eq!(parse_stored_context("[1,2]").unwrap()[1], 2);
    let expected = serde_json::from_str::<Value>("{").unwrap_err().to_string();
    assert_eq!(parse_stored_context("{").unwrap_err().message, format!("corrupt context: {expected}"));
}
