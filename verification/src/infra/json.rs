//! JSON checks on command-line input. The payloads and contexts stay opaque to
//! the domain; they only have to be JSON.
use crate::error::{AppError, AppErrorView, TechnicalError};
use vstd::prelude::*;
use vstd::string::StringExecFns;

verus! {

/// What `serde_json::from_str::<serde_json::Value>` gives for a text: the value,
/// or the text of the error it reports.
pub uninterp spec fn json_parse(text: Seq<char>) -> Result<serde_json::Value, Seq<char>>;

/// Calls `serde_json::from_str::<serde_json::Value>`, turning its error into the
/// error's display text. Claims only that the outcome is the one `json_parse`
/// names for `text`.
#[verifier::external_body]
fn parse_json_value(text: &str) -> (r: Result<serde_json::Value, String>)
    ensures
        match r {
            Ok(v) => json_parse(text@) == Ok::<serde_json::Value, Seq<char>>(v),
            Err(m) => json_parse(text@) == Err::<serde_json::Value, Seq<char>>(m@),
        },
{
    match serde_json::from_str::<serde_json::Value>(text) {
        Ok(v) => Ok(v),
        Err(e) => Err(e.to_string()),
    }
}

/// What `serde_json::Value::String` builds from a text.
pub uninterp spec fn json_string(text: Seq<char>) -> serde_json::Value;

/// Builds the JSON string `serde_json::Value::String(text)`. Claims only that
/// the value is the one `json_string` names for `text`.
#[verifier::external_body]
fn json_string_value(text: String) -> (r: serde_json::Value)
    ensures
        r == json_string(text@),
{
    serde_json::Value::String(text)
}

/// `prefix` followed by the error text that parsing `text` reports.
pub open spec fn json_error_message(prefix: Seq<char>, text: Seq<char>) -> Seq<char> {
    prefix + json_parse(text)->Err_0
}

/// A payload that is not valid JSON is a technical error (bad input to the
/// tool), not a domain rule violation.
pub fn validate_json(payload: &str) -> (r: Result<(), AppError>)
    ensures
        r is Ok <==> json_parse(payload@) is Ok,
        r matches Err(e) ==> e@ == AppErrorView::Technical(
            json_error_message("payload is not valid JSON: "@, payload@),
        ),
{
    match parse_json_value(payload) {
        Ok(_) => Ok(()),
        Err(m) => {
            let mut message = String::from_str("payload is not valid JSON: ");
            message.append(m.as_str());
            Err(AppError::Technical(TechnicalError::new(message)))
        },
    }
}

/// The JSON text a command's context is read from: the `--context` blob, or
/// `null` when none was given.
pub open spec fn context_text(context_json: Option<Seq<char>>) -> Seq<char> {
    match context_json {
        Some(text) => text,
        None => "null"@,
    }
}

/// The context a command carries: the parsed `--context` blob, or JSON `null`
/// when none was given. A blob that is not valid JSON is a technical error.
pub fn parse_context(context_json: Option<String>) -> (r: Result<serde_json::Value, AppError>)
    ensures
        ({
            let text = context_text(
                match context_json {
                    Some(t) => Some(t@),
                    None => None,
                },
            );
            match r {
                Ok(v) => json_parse(text) == Ok::<serde_json::Value, Seq<char>>(v),
                Err(e) => json_parse(text) is Err && e@ == AppErrorView::Technical(
                    json_error_message("invalid context JSON: "@, text),
                ),
            }
        }),
{
    let text = match context_json {
        Some(t) => t,
        None => String::from_str("null"),
    };
    match parse_json_value(text.as_str()) {
        Ok(v) => Ok(v),
        Err(m) => {
            let mut message = String::from_str("invalid context JSON: ");
            message.append(m.as_str());
            Err(AppError::Technical(TechnicalError::new(message)))
        },
    }
}

/// The context that replaces a machine's blob along with a transition: the
/// parsed `--context` blob, or none (keep the blob) when it was not given.
pub fn parse_replacement_context(context_json: Option<String>) -> (r: Result<
    Option<serde_json::Value>,
    AppError,
>)
    ensures
        match context_json {
            None => r matches Ok(None),
            Some(text) => match r {
                Ok(Some(v)) => json_parse(text@) == Ok::<serde_json::Value, Seq<char>>(v),
                Ok(None) => false,
                Err(e) => json_parse(text@) is Err && e@ == AppErrorView::Technical(
                    json_error_message("invalid context JSON: "@, text@),
                ),
            },
        },
{
    match context_json {
        None => Ok(None),
        Some(text) => match parse_context(Some(text)) {
            Ok(v) => Ok(Some(v)),
            Err(e) => Err(e),
        },
    }
}

/// A stored payload as a JSON value: the payload parsed as JSON, or, when it
/// does not parse, the payload as a JSON string.
pub fn payload_value(payload: &str) -> (r: serde_json::Value)
    ensures
        match json_parse(payload@) {
            Ok(v) => r == v,
            Err(_) => r == json_string(payload@),
        },
{
    match parse_json_value(payload) {
        Ok(v) => v,
        Err(_) => json_string_value(String::from_str(payload)),
    }
}

/// A context read back from the store. A text that does not parse is a
/// corrupt store: a technical error.
pub fn parse_stored_context(text: &str) -> (r: Result<serde_json::Value, TechnicalError>)
    ensures
        match r {
            Ok(v) => json_parse(text@) == Ok::<serde_json::Value, Seq<char>>(v),
            Err(e) => json_parse(text@) is Err && e.message@ == json_error_message(
                "corrupt context: "@,
                text@,
            ),
        },
{
    match parse_json_value(text) {
        Ok(v) => Ok(v),
        Err(m) => {
            let mut message = String::from_str("corrupt context: ");
            message.append(m.as_str());
            Err(TechnicalError::new(message))
        },
    }
}

} // verus!
