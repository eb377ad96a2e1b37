//! The two error channels of `cog`.
//!
//! - `DomainError`: an expected business error, never retried. It is reported
//!   with `kind:"domain"` and exit code 2 (an empty stream, an illegal transition).
//! - `TechnicalError`: an infrastructure failure that may be retried. It is reported
//!   with `kind:"technical"` and exit code 70 (SQLite unavailable, malformed JSON input).
use vstd::prelude::*;
use vstd::string::StringExecFns;

verus! {

/// An expected, non-retryable business error.
#[derive(Debug)]
pub enum DomainError {
    /// Querying a stream that never received any entry.
    EmptyStream { stream: String },
    /// A transition not permitted by the machine's definition (or from a terminal state).
    IllegalTransition { from: String, to: String },
    /// Referencing a state the definition does not declare.
    UnknownState { state: String },
    /// Operating on a machine that has not been defined yet.
    NotInitialized { name: String },
}

/// The mathematical value of a `DomainError`: its variant and the text it carries.
pub enum DomainErrorView {
    EmptyStream { stream: Seq<char> },
    IllegalTransition { from: Seq<char>, to: Seq<char> },
    UnknownState { state: Seq<char> },
    NotInitialized { name: Seq<char> },
}

impl View for DomainError {
    type V = DomainErrorView;

    open spec fn view(&self) -> DomainErrorView {
        match self {
            DomainError::EmptyStream { stream } => DomainErrorView::EmptyStream { stream: stream@ },
            DomainError::IllegalTransition { from, to } => DomainErrorView::IllegalTransition {
                from: from@,
                to: to@,
            },
            DomainError::UnknownState { state } => DomainErrorView::UnknownState { state: state@ },
            DomainError::NotInitialized { name } => DomainErrorView::NotInitialized { name: name@ },
        }
    }
}

/// The stable, machine-readable code of each kind of domain error.
pub open spec fn domain_code(e: DomainErrorView) -> Seq<char> {
    match e {
        DomainErrorView::EmptyStream { .. } => "empty_stream"@,
        DomainErrorView::IllegalTransition { .. } => "illegal_transition"@,
        DomainErrorView::UnknownState { .. } => "unknown_state"@,
        DomainErrorView::NotInitialized { .. } => "not_initialized"@,
    }
}

/// The human-readable sentence that describes a domain error.
pub open spec fn domain_message(e: DomainErrorView) -> Seq<char> {
    match e {
        DomainErrorView::EmptyStream { stream } => "stream '"@ + stream + "' is empty"@,
        DomainErrorView::IllegalTransition { from, to } => "illegal transition from '"@ + from
            + "' to '"@ + to + "'"@,
        DomainErrorView::UnknownState { state } => "unknown state '"@ + state + "'"@,
        DomainErrorView::NotInitialized { name } => "machine '"@ + name + "' is not initialized"@,
    }
}

impl DomainError {
    /// Stable, machine-readable code exposed in the JSON output.
    pub fn code(&self) -> (r: &'static str)
        ensures
            r@ == domain_code(self@),
    {
        match self {
            DomainError::EmptyStream { .. } => "empty_stream",
            DomainError::IllegalTransition { .. } => "illegal_transition",
            DomainError::UnknownState { .. } => "unknown_state",
            DomainError::NotInitialized { .. } => "not_initialized",
        }
    }

    /// The sentence that describes the error, as printed in the JSON `message` field.
    pub fn message(&self) -> (r: String)
        ensures
            r@ == domain_message(self@),
    {
        match self {
            DomainError::EmptyStream { stream } => {
                let mut s = String::from_str("stream '");
                s.append(stream.as_str());
                s.append("' is empty");
                s
            },
            DomainError::IllegalTransition { from, to } => {
                let mut s = String::from_str("illegal transition from '");
                s.append(from.as_str());
                s.append("' to '");
                s.append(to.as_str());
                s.append("'");
                s
            },
            DomainError::UnknownState { state } => {
                let mut s = String::from_str("unknown state '");
                s.append(state.as_str());
                s.append("'");
                s
            },
            DomainError::NotInitialized { name } => {
                let mut s = String::from_str("machine '");
                s.append(name.as_str());
                s.append("' is not initialized");
                s
            },
        }
    }
}

/// An infrastructure failure, possibly retryable.
#[derive(Debug)]
pub struct TechnicalError {
    pub message: String,
}

impl TechnicalError {
    /// A technical error carrying `message`.
    pub fn new(message: String) -> (r: TechnicalError)
        ensures
            r.message@ == message@,
    {
        TechnicalError { message }
    }
}

/// A use case error: either domain or technical. The command-line front end maps
/// the first to exit code 2 and the second to exit code 70.
#[derive(Debug)]
pub enum AppError {
    Domain(DomainError),
    Technical(TechnicalError),
}

/// The mathematical value of an `AppError`.
pub enum AppErrorView {
    Domain(DomainErrorView),
    Technical(Seq<char>),
}

impl View for AppError {
    type V = AppErrorView;

    open spec fn view(&self) -> AppErrorView {
        match self {
            AppError::Domain(e) => AppErrorView::Domain(e@),
            AppError::Technical(e) => AppErrorView::Technical(e.message@),
        }
    }
}

impl From<DomainError> for AppError {
    fn from(e: DomainError) -> (r: AppError) {
        AppError::Domain(e)
    }
}

impl vstd::std_specs::convert::FromSpecImpl<DomainError> for AppError {
    open spec fn obeys_from_spec() -> bool {
        true
    }

    open spec fn from_spec(e: DomainError) -> AppError {
        AppError::Domain(e)
    }
}

impl From<TechnicalError> for AppError {
    fn from(e: TechnicalError) -> (r: AppError) {
        AppError::Technical(e)
    }
}

impl vstd::std_specs::convert::FromSpecImpl<TechnicalError> for AppError {
    open spec fn obeys_from_spec() -> bool {
        true
    }

    open spec fn from_spec(e: TechnicalError) -> AppError {
        AppError::Technical(e)
    }
}

} // verus!
