//! Argument parsing into an `Invocation`.
//!
//! Form: `cog [--store <path>] <group> <subcommand> [args...]`
//!
//! Usage concerns (help, missing or unknown commands or arguments) are neither
//! domain nor technical errors: they form a separate `Usage` channel, printed as
//! plain text on stderr with exit code 64, which keeps stdout pure JSON.
use crate::text::same_text;
use vstd::prelude::*;
use vstd::string::StringExecFns;

verus! {

/// A parsed command line: the store to open and the command to run on it.
pub struct Invocation {
    pub store: String,
    pub command: Command,
}

/// The runnable commands.
pub enum Command {
    LogAdd { stream: String, payload: String },
    LogQuery { stream: String },
    FsmDefine { name: String, def_json: String, context_json: Option<String> },
    FsmTransition { name: String, to: String, context_json: Option<String> },
    FsmState { name: String },
}

/// Outcome of parsing that is neither a runnable command nor a domain/technical
/// error: either an explicit help request, or a malformed invocation.
pub enum Usage {
    /// `-h`/`--help`: print this help, exit 0.
    Help(&'static str),
    /// Something is missing or wrong: print one sentence and contextual help, exit 64.
    Error { sentence: String, help: &'static str },
}

/// The store used when `--store` is not given.
pub const DEFAULT_STORE: &'static str = ".cog/state.db";

/// Top-level help.
pub const HELP_TOP: &'static str = "\
cog — external persistent memory (SQLite) for skills/agents

USAGE:
    cog [--store <path>] <command>

GLOBAL OPTIONS:
    --store <path>    database file (default: .cog/state.db)
    -h, --help        show this help (works after any command too)

COMMANDS:
    log     append-only journal per stream
    fsm     state machine with data-defined rules

Run `cog <command> --help` for command-specific help, e.g. `cog log --help`.

Every command prints a JSON result on stdout: {\"ok\":true,\"value\":...} or
{\"ok\":false,\"error\":{\"kind\":...,\"code\":...}}. Usage/help text goes to stderr.
Exit codes: 0 ok, 2 domain error, 64 usage error, 70 technical error.";

/// Help of the `log` group.
pub const HELP_LOG: &'static str = "\
cog log — append-only journal per stream

USAGE:
    cog log add <stream> <json>    append a JSON entry to a stream
    cog log query <stream>         list a stream's entries, newest first

EXAMPLES:
    # Wrap JSON in SINGLE quotes so the shell leaves it untouched:
    cog log add reviews '{\"comment\": 42}'
    cog log query reviews";

/// Help of the `fsm` group.
pub const HELP_FSM: &'static str = "\
cog fsm — state machine whose states & transitions are data

USAGE:
    cog fsm define <name> <def-json> [--context <json>]   define a machine
    cog fsm transition <name> <state> [--context <json>]   move to a new state
    cog fsm state <name>                                   show current + context

The definition lists states (each with optional terminal/description) and the
allowed transitions; the machine starts at \"initial\".

--context carries an opaque JSON blob (e.g. a poll cursor) alongside the state.
cog never inspects its shape. On `define` it is the machine's initial context
(default: null); on `transition` it WHOLLY replaces the blob in the same
transaction as the move (omit it to leave the blob untouched). `state` returns it.

EXAMPLES:
    cog fsm define watch '{\"states\":[{\"name\":\"idle\"},{\"name\":\"done\",\"terminal\":true}],\"transitions\":[{\"from\":\"idle\",\"to\":\"done\"}],\"initial\":\"idle\"}'
    cog fsm transition watch done --context '{\"last_seen\":42}'
    cog fsm state watch";

/// The mathematical value of a `Command`.
pub enum CommandView {
    LogAdd { stream: Seq<char>, payload: Seq<char> },
    LogQuery { stream: Seq<char> },
    FsmDefine { name: Seq<char>, def_json: Seq<char>, context_json: Option<Seq<char>> },
    FsmTransition { name: Seq<char>, to: Seq<char>, context_json: Option<Seq<char>> },
    FsmState { name: Seq<char> },
}

/// The mathematical value of a `Usage`.
pub enum UsageView {
    Help(Seq<char>),
    Error { sentence: Seq<char>, help: Seq<char> },
}

/// The mathematical value of an `Invocation`.
pub struct InvocationView {
    pub store: Seq<char>,
    pub command: CommandView,
}

/// The mathematical value of an optional text.
pub open spec fn opt_view(o: Option<String>) -> Option<Seq<char>> {
    match o {
        Some(s) => Some(s@),
        None => None,
    }
}

impl View for Command {
    type V = CommandView;

    open spec fn view(&self) -> CommandView {
        match self {
            Command::LogAdd { stream, payload } => CommandView::LogAdd {
                stream: stream@,
                payload: payload@,
            },
            Command::LogQuery { stream } => CommandView::LogQuery { stream: stream@ },
            Command::FsmDefine { name, def_json, context_json } => CommandView::FsmDefine {
                name: name@,
                def_json: def_json@,
                context_json: opt_view(*context_json),
            },
            Command::FsmTransition { name, to, context_json } => CommandView::FsmTransition {
                name: name@,
                to: to@,
                context_json: opt_view(*context_json),
            },
            Command::FsmState { name } => CommandView::FsmState { name: name@ },
        }
    }
}

impl View for Usage {
    type V = UsageView;

    open spec fn view(&self) -> UsageView {
        match self {
            Usage::Help(h) => UsageView::Help(h@),
            Usage::Error { sentence, help } => UsageView::Error { sentence: sentence@, help: help@ },
        }
    }
}

impl View for Invocation {
    type V = InvocationView;

    open spec fn view(&self) -> InvocationView {
        InvocationView { store: self.store@, command: self.command@ }
    }
}

/// The texts of a sequence of arguments.
pub open spec fn texts(args: Seq<String>) -> Seq<Seq<char>> {
    args.map_values(|s: String| s@)
}

/// What scanning the arguments collects: the last `--store` and `--context`
/// values, whether a help flag was seen, and the remaining positional arguments.
pub struct Scan {
    pub store: Seq<char>,
    pub context: Option<Seq<char>>,
    pub help: bool,
    pub rest: Seq<Seq<char>>,
}

/// A usage error with its sentence and help text.
pub open spec fn usage_error(sentence: Seq<char>, help: Seq<char>) -> UsageView {
    UsageView::Error { sentence, help }
}

/// Scan `args` from index `i` on, left to right: `--store` and `--context` take
/// the next argument as their value (an error when there is none), `-h` and
/// `--help` request help, and anything else is positional.
pub open spec fn scan(args: Seq<Seq<char>>, i: int, acc: Scan) -> Result<Scan, UsageView>
    decreases args.len() - i,
{
    if i < 0 || i >= args.len() {
        Ok(acc)
    } else if args[i] == "--store"@ {
        if i + 1 >= args.len() {
            Err(usage_error("Option --store expects a path."@, HELP_TOP@))
        } else {
            scan(args, i + 2, Scan { store: args[i + 1], ..acc })
        }
    } else if args[i] == "--context"@ {
        if i + 1 >= args.len() {
            Err(usage_error("Option --context expects a JSON blob."@, HELP_FSM@))
        } else {
            scan(args, i + 2, Scan { context: Some(args[i + 1]), ..acc })
        }
    } else if args[i] == "-h"@ || args[i] == "--help"@ {
        scan(args, i + 1, Scan { help: true, ..acc })
    } else {
        scan(args, i + 1, Scan { rest: acc.rest.push(args[i]), ..acc })
    }
}

/// The scan of a whole command line, starting from the default store.
pub open spec fn scan_all(args: Seq<Seq<char>>) -> Result<Scan, UsageView> {
    scan(args, 0, Scan { store: DEFAULT_STORE@, context: None, help: false, rest: Seq::empty() })
}

/// The most specific help for a group.
pub open spec fn help_for_group(group: Seq<char>) -> Seq<char> {
    if group == "log"@ {
        HELP_LOG@
    } else if group == "fsm"@ {
        HELP_FSM@
    } else {
        HELP_TOP@
    }
}

/// The positional argument at `idx`, or the usage error that names it as missing.
pub open spec fn required(rest: Seq<Seq<char>>, idx: int, name: Seq<char>, help: Seq<char>) -> Result<
    Seq<char>,
    UsageView,
> {
    if 0 <= idx < rest.len() {
        Ok(rest[idx])
    } else {
        Err(usage_error("Missing argument: "@ + name + "."@, help))
    }
}

/// The usage error for a group typed without a valid subcommand.
pub open spec fn missing_subcommand(group: Seq<char>, choices: Seq<char>, help: Seq<char>) -> UsageView {
    usage_error("Command '"@ + group + "' needs a subcommand ("@ + choices + ")."@, help)
}

/// The positional argument at `idx`, or the empty text.
pub open spec fn positional(rest: Seq<Seq<char>>, idx: int) -> Seq<char> {
    if 0 <= idx < rest.len() {
        rest[idx]
    } else {
        ""@
    }
}

/// The command that the positional arguments name, once no help was requested.
pub open spec fn command_of(sc: Scan) -> Result<CommandView, UsageView> {
    let rest = sc.rest;
    let group = positional(rest, 0);
    let sub = positional(rest, 1);
    if group == "log"@ && sub == "add"@ {
        match required(rest, 2, "stream"@, HELP_LOG@) {
            Err(u) => Err(u),
            Ok(stream) => match required(rest, 3, "json payload"@, HELP_LOG@) {
                Err(u) => Err(u),
                Ok(payload) => Ok(CommandView::LogAdd { stream, payload }),
            },
        }
    } else if group == "log"@ && sub == "query"@ {
        match required(rest, 2, "stream"@, HELP_LOG@) {
            Err(u) => Err(u),
            Ok(stream) => Ok(CommandView::LogQuery { stream }),
        }
    } else if group == "log"@ {
        Err(missing_subcommand("log"@, "add or query"@, HELP_LOG@))
    } else if group == "fsm"@ && sub == "define"@ {
        match required(rest, 2, "name"@, HELP_FSM@) {
            Err(u) => Err(u),
            Ok(name) => match required(rest, 3, "json definition"@, HELP_FSM@) {
                Err(u) => Err(u),
                Ok(def_json) => Ok(
                    CommandView::FsmDefine { name, def_json, context_json: sc.context },
                ),
            },
        }
    } else if group == "fsm"@ && sub == "transition"@ {
        match required(rest, 2, "name"@, HELP_FSM@) {
            Err(u) => Err(u),
            Ok(name) => match required(rest, 3, "target state"@, HELP_FSM@) {
                Err(u) => Err(u),
                Ok(to) => Ok(CommandView::FsmTransition { name, to, context_json: sc.context }),
            },
        }
    } else if group == "fsm"@ && sub == "state"@ {
        match required(rest, 2, "name"@, HELP_FSM@) {
            Err(u) => Err(u),
            Ok(name) => Ok(CommandView::FsmState { name }),
        }
    } else if group == "fsm"@ {
        Err(missing_subcommand("fsm"@, "define, transition or state"@, HELP_FSM@))
    } else if group == ""@ {
        Err(usage_error("No command given."@, HELP_TOP@))
    } else {
        Err(usage_error("Unknown command '"@ + group + "'."@, HELP_TOP@))
    }
}

/// What parsing a command line gives. An explicit help flag wins over
/// everything but a dangling option, and is scoped to the group typed so far.
pub open spec fn parse_outcome(args: Seq<Seq<char>>) -> Result<InvocationView, UsageView> {
    match scan_all(args) {
        Err(u) => Err(u),
        Ok(sc) => if sc.help {
            Err(UsageView::Help(help_for_group(positional(sc.rest, 0))))
        } else {
            match command_of(sc) {
                Err(u) => Err(u),
                Ok(command) => Ok(InvocationView { store: sc.store, command }),
            }
        },
    }
}

/// The view of a parse result.
pub open spec fn parse_view(r: Result<Invocation, Usage>) -> Result<InvocationView, UsageView> {
    match r {
        Ok(inv) => Ok(inv@),
        Err(u) => Err(u@),
    }
}

/// Pick the most specific help for what the user has typed so far.
fn help_for(group: &str) -> (r: &'static str)
    ensures
        r@ == help_for_group(group@),
{
    if same_text(group, "log") {
        HELP_LOG
    } else if same_text(group, "fsm") {
        HELP_FSM
    } else {
        HELP_TOP
    }
}

/// The positional argument at `idx`, or a usage error naming it as missing.
fn req(rest: &[String], idx: usize, name: &str, help: &'static str) -> (r: Result<String, Usage>)
    ensures
        match r {
            Ok(s) => required(texts(rest@), idx as int, name@, help@) == Ok::<Seq<char>, UsageView>(s@),
            Err(u) => required(texts(rest@), idx as int, name@, help@) == Err::<Seq<char>, UsageView>(u@),
        },
{
    if idx < rest.len() {
        Ok(rest[idx].clone())
    } else {
        let mut sentence = String::from_str("Missing argument: ");
        sentence.append(name);
        sentence.append(".");
        Err(Usage::Error { sentence, help })
    }
}

/// The usage error for a group typed without a valid subcommand.
fn missing_sub(group: &str, choices: &str, help: &'static str) -> (r: Usage)
    ensures
        r@ == missing_subcommand(group@, choices@, help@),
{
    let mut sentence = String::from_str("Command '");
    sentence.append(group);
    sentence.append("' needs a subcommand (");
    sentence.append(choices);
    sentence.append(").");
    Usage::Error { sentence, help }
}

proof fn lemma_scan_then_help(args: Seq<Seq<char>>, i: int, acc: Scan)
    requires
        0 <= i <= args.len(),
        scan(args, i, acc) is Ok,
    ensures
        scan(args.push("-h"@), i, acc) == Ok::<Scan, UsageView>(
            Scan { help: true, ..scan(args, i, acc)->Ok_0 },
        ),
    decreases args.len() - i,
{
    reveal_strlit("-h");
    reveal_strlit("--store");
    reveal_strlit("--context");
    let ext = args.push("-h"@);
    assert(ext[args.len() as int] == "-h"@);
    assert("-h"@ != "--store"@ && "-h"@ != "--context"@) by {
        assert("-h"@.len() != "--store"@.len());
        assert("-h"@.len() != "--context"@.len());
    }
    if i == args.len() {
        assert(scan(ext, i + 1, Scan { help: true, ..acc }) == Ok::<Scan, UsageView>(
            Scan { help: true, ..acc },
        ));
    } else {
        assert(ext[i] == args[i]);
        if args[i] == "--store"@ || args[i] == "--context"@ {
            assert(ext[i + 1] == args[i + 1]);
            if args[i] == "--store"@ {
                lemma_scan_then_help(args, i + 2, Scan { store: args[i + 1], ..acc });
            } else {
                lemma_scan_then_help(args, i + 2, Scan { context: Some(args[i + 1]), ..acc });
            }
        } else if args[i] == "-h"@ || args[i] == "--help"@ {
            lemma_scan_then_help(args, i + 1, Scan { help: true, ..acc });
        } else {
            lemma_scan_then_help(args, i + 1, Scan { rest: acc.rest.push(args[i]), ..acc });
        }
    }
}

/// Law: `-h` works after any command line. Appending it to arguments that scan
/// (no option left without its value) always asks for help, scoped to the group
/// typed so far, whatever else is missing or unknown.
pub proof fn law_trailing_help_flag(args: Seq<Seq<char>>)
    requires
        scan_all(args) is Ok,
    ensures
        parse_outcome(args.push("-h"@)) == Err::<InvocationView, UsageView>(
            UsageView::Help(help_for_group(positional(scan_all(args)->Ok_0.rest, 0))),
        ),
{
    lemma_scan_then_help(
        args,
        0,
        Scan { store: DEFAULT_STORE@, context: None, help: false, rest: Seq::empty() },
    );
}

/// `args` holds no `--store` token from index `i` on.
pub open spec fn no_store_option_from(args: Seq<Seq<char>>, i: int) -> bool {
    forall|j: int| i <= j < args.len() ==> args[j] != "--store"@
}

/// Scanning from index `i` reaches index `k`: the argument at `k` (or the end,
/// when `k` is the length) is not the value of an option.
pub open spec fn lands_on(args: Seq<Seq<char>>, i: int, k: int) -> bool
    decreases k - i,
{
    if i == k {
        true
    } else if i > k || i < 0 || i >= args.len() {
        false
    } else if args[i] == "--store"@ || args[i] == "--context"@ {
        i + 2 <= k && lands_on(args, i + 2, k)
    } else {
        lands_on(args, i + 1, k)
    }
}

/// `args` with the option `--store p` inserted at index `k`.
pub open spec fn insert_store(args: Seq<Seq<char>>, k: int, p: Seq<char>) -> Seq<Seq<char>> {
    args.take(k) + seq!["--store"@, p] + args.skip(k)
}

/// A scan result whose store, when it succeeds, is `p`.
pub open spec fn scan_with_store(r: Result<Scan, UsageView>, p: Seq<char>) -> Result<Scan, UsageView> {
    match r {
        Ok(sc) => Ok(Scan { store: p, ..sc }),
        Err(u) => Err(u),
    }
}

/// Without a `--store` token, the store collected is the one scanning started with.
proof fn lemma_scan_keeps_store(args: Seq<Seq<char>>, i: int, acc: Scan, x: Seq<char>)
    requires
        0 <= i,
        no_store_option_from(args, i),
    ensures
        scan(args, i, Scan { store: x, ..acc }) == scan_with_store(scan(args, i, acc), x),
    decreases args.len() - i,
{
    if i < args.len() {
        if args[i] == "--context"@ {
            if i + 1 < args.len() {
                lemma_scan_keeps_store(args, i + 2, Scan { context: Some(args[i + 1]), ..acc }, x);
            }
        } else if args[i] == "-h"@ || args[i] == "--help"@ {
            lemma_scan_keeps_store(args, i + 1, Scan { help: true, ..acc }, x);
        } else {
            lemma_scan_keeps_store(args, i + 1, Scan { rest: acc.rest.push(args[i]), ..acc }, x);
        }
    }
}

/// Past the inserted option, scanning the longer arguments is scanning the
/// original ones two places earlier.
proof fn lemma_scan_shifted(args: Seq<Seq<char>>, k: int, p: Seq<char>, j: int, acc: Scan)
    requires
        0 <= k <= j,
        k <= args.len(),
    ensures
        scan(insert_store(args, k, p), j + 2, acc) == scan(args, j, acc),
    decreases args.len() - j,
{
    let a2 = insert_store(args, k, p);
    assert(a2.len() == args.len() + 2);
    assert(forall|t: int| k <= t < args.len() ==> #[trigger] a2[t + 2] == args[t]);
    if j < args.len() {
        assert(a2[j + 2] == args[j]);
        if j + 1 < args.len() {
            assert(a2[j + 3] == args[j + 1]);
        }
        if args[j] == "--store"@ || args[j] == "--context"@ {
            if j + 1 < args.len() {
                if args[j] == "--store"@ {
                    lemma_scan_shifted(args, k, p, j + 2, Scan { store: args[j + 1], ..acc });
                } else {
                    lemma_scan_shifted(args, k, p, j + 2, Scan { context: Some(args[j + 1]), ..acc });
                }
            }
        } else if args[j] == "-h"@ || args[j] == "--help"@ {
            lemma_scan_shifted(args, k, p, j + 1, Scan { help: true, ..acc });
        } else {
            lemma_scan_shifted(args, k, p, j + 1, Scan { rest: acc.rest.push(args[j]), ..acc });
        }
    }
}

proof fn lemma_scan_inserted(args: Seq<Seq<char>>, k: int, p: Seq<char>, i: int, acc: Scan)
    requires
        0 <= i <= k <= args.len(),
        lands_on(args, i, k),
        no_store_option_from(args, 0),
    ensures
        scan(insert_store(args, k, p), i, acc) == scan_with_store(scan(args, i, acc), p),
    decreases k - i,
{
    let a2 = insert_store(args, k, p);
    assert(a2.len() == args.len() + 2);
    assert(forall|t: int| 0 <= t < k ==> #[trigger] a2[t] == args[t]);
    if i == k {
        assert(a2[k] == "--store"@);
        assert(a2[k + 1] == p);
        lemma_scan_shifted(args, k, p, k, Scan { store: p, ..acc });
        lemma_scan_keeps_store(args, k, acc, p);
    } else {
        assert(a2[i] == args[i]);
        assert(args[i] != "--store"@);
        if args[i] == "--context"@ {
            assert(i + 2 <= k);
            assert(a2[i + 1] == args[i + 1]);
            lemma_scan_inserted(args, k, p, i + 2, Scan { context: Some(args[i + 1]), ..acc });
        } else if args[i] == "-h"@ || args[i] == "--help"@ {
            lemma_scan_inserted(args, k, p, i + 1, Scan { help: true, ..acc });
        } else {
            lemma_scan_inserted(args, k, p, i + 1, Scan { rest: acc.rest.push(args[i]), ..acc });
        }
    }
}

/// Law: inserting `--store p` where an argument starts, into a command line that
/// names no store, changes only the store: a command line that parses gets store
/// `p` (instead of the default) and the same command, and one that fails fails
/// with the same help or usage error.
pub proof fn law_store_option_insertion(args: Seq<Seq<char>>, k: int, p: Seq<char>)
    requires
        0 <= k <= args.len(),
        no_store_option_from(args, 0),
        lands_on(args, 0, k),
    ensures
        parse_outcome(args) matches Ok(inv) ==> inv.store == DEFAULT_STORE@,
        parse_outcome(insert_store(args, k, p)) == match parse_outcome(args) {
            Ok(inv) => Ok(InvocationView { store: p, ..inv }),
            Err(u) => Err::<InvocationView, UsageView>(u),
        },
{
    let init = Scan { store: DEFAULT_STORE@, context: None, help: false, rest: Seq::empty() };
    lemma_scan_inserted(args, k, p, 0, init);
    lemma_scan_keeps_store(args, 0, init, DEFAULT_STORE@);
    assert(init == Scan { store: DEFAULT_STORE@, ..init });
}

/// `t` is an ordinary argument: neither an option that takes a value nor a help flag.
pub open spec fn is_plain(t: Seq<char>) -> bool {
    &&& t != "--store"@
    &&& t != "--context"@
    &&& t != "-h"@
    &&& t != "--help"@
}

proof fn lemma_option_words()
    ensures
        is_plain("log"@),
        is_plain("add"@),
        is_plain("query"@),
        is_plain("fsm"@),
        is_plain("define"@),
        is_plain("transition"@),
        is_plain("state"@),
        "fsm"@ != "log"@,
        "query"@ != "add"@,
        "define"@ != "transition"@,
        "state"@ != "define"@ && "state"@ != "transition"@,
        "fsm"@ != ""@ && "log"@ != ""@,
{
    reveal_strlit("--store");
    reveal_strlit("--context");
    reveal_strlit("-h");
    reveal_strlit("--help");
    reveal_strlit("log");
    reveal_strlit("add");
    reveal_strlit("query");
    reveal_strlit("fsm");
    reveal_strlit("define");
    reveal_strlit("transition");
    reveal_strlit("state");
    reveal_strlit("");
    assert("define"@[0] != "--help"@[0]);
    assert("transition"@[0] != "--context"@[0]);
    assert("state"@[0] != "-h"@[0]);
    assert("fsm"@.len() != ""@.len() && "log"@.len() != ""@.len());
    assert("fsm"@[0] != "log"@[0]);
    assert("query"@[0] != "add"@[0]);
}

proof fn lemma_form_log_add(a: Seq<char>, b: Seq<char>)
    requires
        is_plain(a),
        is_plain(b),
    ensures
        parse_outcome(seq!["log"@, "add"@, a, b]) == Ok::<InvocationView, UsageView>(
            InvocationView {
                store: DEFAULT_STORE@,
                command: CommandView::LogAdd { stream: a, payload: b },
            },
        ),
{
    lemma_option_words();
    reveal_strlit("--context");
    reveal_strlit("--store");
    reveal_with_fuel(scan, 5);
    assert(scan_all(seq!["log"@, "add"@, a, b])->Ok_0.rest =~= seq!["log"@, "add"@, a, b]);
}

proof fn lemma_form_log_query(a: Seq<char>)
    requires
        is_plain(a),
    ensures
        parse_outcome(seq!["log"@, "query"@, a]) == Ok::<InvocationView, UsageView>(
            InvocationView { store: DEFAULT_STORE@, command: CommandView::LogQuery { stream: a } },
        ),
{
    lemma_option_words();
    reveal_strlit("--context");
    reveal_strlit("--store");
    reveal_with_fuel(scan, 4);
    assert(scan_all(seq!["log"@, "query"@, a])->Ok_0.rest =~= seq!["log"@, "query"@, a]);
}

proof fn lemma_form_fsm_define(a: Seq<char>, b: Seq<char>)
    requires
        is_plain(a),
        is_plain(b),
    ensures
        parse_outcome(seq!["fsm"@, "define"@, a, b]) == Ok::<InvocationView, UsageView>(
            InvocationView {
                store: DEFAULT_STORE@,
                command: CommandView::FsmDefine { name: a, def_json: b, context_json: None },
            },
        ),
{
    lemma_option_words();
    reveal_strlit("--context");
    reveal_strlit("--store");
    reveal_with_fuel(scan, 5);
    assert(scan_all(seq!["fsm"@, "define"@, a, b])->Ok_0.rest =~= seq!["fsm"@, "define"@, a, b]);
}

proof fn lemma_form_fsm_define_context(a: Seq<char>, b: Seq<char>, c: Seq<char>)
    requires
        is_plain(a),
        is_plain(b),
    ensures
        parse_outcome(seq!["fsm"@, "define"@, a, b, "--context"@, c]) == Ok::<InvocationView, UsageView>(
            InvocationView {
                store: DEFAULT_STORE@,
                command: CommandView::FsmDefine { name: a, def_json: b, context_json: Some(c) },
            },
        ),
{
    lemma_option_words();
    reveal_strlit("--context");
    reveal_strlit("--store");
    let args = seq!["fsm"@, "define"@, a, b, "--context"@, c];
    let s0 = Scan { store: DEFAULT_STORE@, context: None, help: false, rest: Seq::empty() };
    let s1 = Scan { rest: s0.rest.push("fsm"@), ..s0 };
    let s2 = Scan { rest: s1.rest.push("define"@), ..s1 };
    let s3 = Scan { rest: s2.rest.push(a), ..s2 };
    let s4 = Scan { rest: s3.rest.push(b), ..s3 };
    let s6 = Scan { context: Some(c), ..s4 };
    assert(args[4] == "--context"@);
    assert(scan(args, 6, s6) == Ok::<Scan, UsageView>(s6));
    assert(scan(args, 4, s4) == scan(args, 6, s6));
    assert(scan(args, 3, s3) == scan(args, 4, s4));
    assert(scan(args, 2, s2) == scan(args, 3, s3));
    assert(scan(args, 1, s1) == scan(args, 2, s2));
    assert(scan(args, 0, s0) == scan(args, 1, s1));
    assert(s6.rest =~= seq!["fsm"@, "define"@, a, b]);
}

proof fn lemma_form_fsm_transition(a: Seq<char>, b: Seq<char>)
    requires
        is_plain(a),
        is_plain(b),
    ensures
        parse_outcome(seq!["fsm"@, "transition"@, a, b]) == Ok::<InvocationView, UsageView>(
            InvocationView {
                store: DEFAULT_STORE@,
                command: CommandView::FsmTransition { name: a, to: b, context_json: None },
            },
        ),
{
    lemma_option_words();
    reveal_strlit("--context");
    reveal_strlit("--store");
    reveal_with_fuel(scan, 5);
    assert(scan_all(seq!["fsm"@, "transition"@, a, b])->Ok_0.rest =~= seq!["fsm"@, "transition"@, a, b]);
}

proof fn lemma_form_fsm_transition_context(a: Seq<char>, b: Seq<char>, c: Seq<char>)
    requires
        is_plain(a),
        is_plain(b),
    ensures
        parse_outcome(seq!["fsm"@, "transition"@, a, b, "--context"@, c]) == Ok::<InvocationView, UsageView>(
            InvocationView {
                store: DEFAULT_STORE@,
                command: CommandView::FsmTransition { name: a, to: b, context_json: Some(c) },
            },
        ),
{
    lemma_option_words();
    reveal_strlit("--context");
    reveal_strlit("--store");
    let args = seq!["fsm"@, "transition"@, a, b, "--context"@, c];
    let s0 = Scan { store: DEFAULT_STORE@, context: None, help: false, rest: Seq::empty() };
    let s1 = Scan { rest: s0.rest.push("fsm"@), ..s0 };
    let s2 = Scan { rest: s1.rest.push("transition"@), ..s1 };
    let s3 = Scan { rest: s2.rest.push(a), ..s2 };
    let s4 = Scan { rest: s3.rest.push(b), ..s3 };
    let s6 = Scan { context: Some(c), ..s4 };
    assert(args[4] == "--context"@);
    assert(scan(args, 6, s6) == Ok::<Scan, UsageView>(s6));
    assert(scan(args, 4, s4) == scan(args, 6, s6));
    assert(scan(args, 3, s3) == scan(args, 4, s4));
    assert(scan(args, 2, s2) == scan(args, 3, s3));
    assert(scan(args, 1, s1) == scan(args, 2, s2));
    assert(scan(args, 0, s0) == scan(args, 1, s1));
    assert(s6.rest =~= seq!["fsm"@, "transition"@, a, b]);
}

proof fn lemma_form_fsm_state(a: Seq<char>)
    requires
        is_plain(a),
    ensures
        parse_outcome(seq!["fsm"@, "state"@, a]) == Ok::<InvocationView, UsageView>(
            InvocationView { store: DEFAULT_STORE@, command: CommandView::FsmState { name: a } },
        ),
{
    lemma_option_words();
    reveal_strlit("--context");
    reveal_strlit("--store");
    reveal_with_fuel(scan, 4);
    assert(scan_all(seq!["fsm"@, "state"@, a])->Ok_0.rest =~= seq!["fsm"@, "state"@, a]);
}

proof fn lemma_form_fsm_state_store(a: Seq<char>, p: Seq<char>)
    requires
        is_plain(a),
    ensures
        parse_outcome(seq!["--store"@, p, "fsm"@, "state"@, a]) == Ok::<InvocationView, UsageView>(
            InvocationView { store: p, command: CommandView::FsmState { name: a } },
        ),
{
    lemma_option_words();
    reveal_strlit("--context");
    reveal_strlit("--store");
    reveal_with_fuel(scan, 5);
    assert(scan_all(seq!["--store"@, p, "fsm"@, "state"@, a])->Ok_0.rest =~= seq!["fsm"@, "state"@, a]);
}

/// Law: the command forms of the usage text. With ordinary arguments `a` and `b`,
/// `log add a b`, `log query a`, `fsm define a b`, `fsm transition a b` and
/// `fsm state a` run that command on the default store; `--context c` after
/// `fsm define` or `fsm transition` carries `c`; and `--store p fsm state a`
/// reads machine `a` from store `p`.
pub proof fn law_command_forms(a: Seq<char>, b: Seq<char>, c: Seq<char>, p: Seq<char>)
    requires
        is_plain(a),
        is_plain(b),
    ensures
        parse_outcome(seq!["log"@, "add"@, a, b]) == Ok::<InvocationView, UsageView>(
            InvocationView {
                store: DEFAULT_STORE@,
                command: CommandView::LogAdd { stream: a, payload: b },
            },
        ),
        parse_outcome(seq!["log"@, "query"@, a]) == Ok::<InvocationView, UsageView>(
            InvocationView { store: DEFAULT_STORE@, command: CommandView::LogQuery { stream: a } },
        ),
        parse_outcome(seq!["fsm"@, "define"@, a, b]) == Ok::<InvocationView, UsageView>(
            InvocationView {
                store: DEFAULT_STORE@,
                command: CommandView::FsmDefine { name: a, def_json: b, context_json: None },
            },
        ),
        parse_outcome(seq!["fsm"@, "define"@, a, b, "--context"@, c]) == Ok::<InvocationView, UsageView>(
            InvocationView {
                store: DEFAULT_STORE@,
                command: CommandView::FsmDefine { name: a, def_json: b, context_json: Some(c) },
            },
        ),
        parse_outcome(seq!["fsm"@, "transition"@, a, b]) == Ok::<InvocationView, UsageView>(
            InvocationView {
                store: DEFAULT_STORE@,
                command: CommandView::FsmTransition { name: a, to: b, context_json: None },
            },
        ),
        parse_outcome(seq!["fsm"@, "transition"@, a, b, "--context"@, c]) == Ok::<
            InvocationView,
            UsageView,
        >(
            InvocationView {
                store: DEFAULT_STORE@,
                command: CommandView::FsmTransition { name: a, to: b, context_json: Some(c) },
            },
        ),
        parse_outcome(seq!["fsm"@, "state"@, a]) == Ok::<InvocationView, UsageView>(
            InvocationView { store: DEFAULT_STORE@, command: CommandView::FsmState { name: a } },
        ),
        parse_outcome(seq!["--store"@, p, "fsm"@, "state"@, a]) == Ok::<InvocationView, UsageView>(
            InvocationView { store: p, command: CommandView::FsmState { name: a } },
        ),
{
    lemma_form_log_add(a, b);
    lemma_form_log_query(a);
    lemma_form_fsm_define(a, b);
    lemma_form_fsm_define_context(a, b, c);
    lemma_form_fsm_transition(a, b);
    lemma_form_fsm_transition_context(a, b, c);
    lemma_form_fsm_state(a);
    lemma_form_fsm_state_store(a, p);
}

/// The view of the scan state held by the parser's loop.
spec fn scan_state(store: String, context: Option<String>, help: bool, rest: Seq<String>) -> Scan {
    Scan { store: store@, context: opt_view(context), help, rest: texts(rest) }
}

/// Parse a command line (without the program name) into an invocation, or into
/// the help or usage error to print.
pub fn parse(args: &[String]) -> (r: Result<Invocation, Usage>)
    ensures
        parse_view(r) == parse_outcome(texts(args@)),
{
    let ghost all = texts(args@);
    let mut store = String::from_str(DEFAULT_STORE);
    let mut help = false;
    let mut context_json: Option<String> = None;
    let mut rest: Vec<String> = Vec::new();
    assert(texts(rest@) =~= Seq::<Seq<char>>::empty());

    let n = args.len();
    let mut i: usize = 0;
    while i < n
        invariant
            n == args@.len(),
            all == texts(args@),
            i <= n,
            scan(all, i as int, scan_state(store, context_json, help, rest@)) == scan_all(all),
        decreases n - i,
    {
        let a = args[i].as_str();
        assert(all[i as int] == a@);
        if same_text(a, "--store") {
            if i + 1 >= n {
                return Err(
                    Usage::Error {
                        sentence: String::from_str("Option --store expects a path."),
                        help: HELP_TOP,
                    },
                );
            }
            store = args[i + 1].clone();
            assert(all[i + 1] == store@);
            i = i + 2;
        } else if same_text(a, "--context") {
            if i + 1 >= n {
                return Err(
                    Usage::Error {
                        sentence: String::from_str("Option --context expects a JSON blob."),
                        help: HELP_FSM,
                    },
                );
            }
            context_json = Some(args[i + 1].clone());
            assert(all[i + 1] == args@[i + 1]@);
            i = i + 2;
        } else if same_text(a, "-h") || same_text(a, "--help") {
            help = true;
            i = i + 1;
        } else {
            let ghost before = rest@;
            rest.push(args[i].clone());
            assert(texts(rest@) =~= texts(before).push(all[i as int]));
            i = i + 1;
        }
    }
    let ghost sc = scan_state(store, context_json, help, rest@);
    assert(scan_all(all) == Ok::<Scan, UsageView>(sc));

    let empty = "";
    proof {
        reveal_strlit("");
    }
    let group: &str = if rest.len() > 0 { rest[0].as_str() } else { empty };
    let sub: &str = if rest.len() > 1 { rest[1].as_str() } else { empty };
    assert(group@ == positional(sc.rest, 0));
    assert(sub@ == positional(sc.rest, 1));

    // Explicit help wins over everything, scoped to the group typed so far.
    if help {
        return Err(Usage::Help(help_for(group)));
    }

    let command = if same_text(group, "log") && same_text(sub, "add") {
        let stream = match req(&rest, 2, "stream", HELP_LOG) {
            Ok(s) => s,
            Err(u) => return Err(u),
        };
        let payload = match req(&rest, 3, "json payload", HELP_LOG) {
            Ok(s) => s,
            Err(u) => return Err(u),
        };
        Command::LogAdd { stream, payload }
    } else if same_text(group, "log") && same_text(sub, "query") {
        let stream = match req(&rest, 2, "stream", HELP_LOG) {
            Ok(s) => s,
            Err(u) => return Err(u),
        };
        Command::LogQuery { stream }
    } else if same_text(group, "log") {
        return Err(missing_sub("log", "add or query", HELP_LOG));
    } else if same_text(group, "fsm") && same_text(sub, "define") {
        let name = match req(&rest, 2, "name", HELP_FSM) {
            Ok(s) => s,
            Err(u) => return Err(u),
        };
        let def_json = match req(&rest, 3, "json definition", HELP_FSM) {
            Ok(s) => s,
            Err(u) => return Err(u),
        };
        Command::FsmDefine { name, def_json, context_json }
    } else if same_text(group, "fsm") && same_text(sub, "transition") {
        let name = match req(&rest, 2, "name", HELP_FSM) {
            Ok(s) => s,
            Err(u) => return Err(u),
        };
        let to = match req(&rest, 3, "target state", HELP_FSM) {
            Ok(s) => s,
            Err(u) => return Err(u),
        };
        Command::FsmTransition { name, to, context_json }
    } else if same_text(group, "fsm") && same_text(sub, "state") {
        let name = match req(&rest, 2, "name", HELP_FSM) {
            Ok(s) => s,
            Err(u) => return Err(u),
        };
        Command::FsmState { name }
    } else if same_text(group, "fsm") {
        return Err(missing_sub("fsm", "define, transition or state", HELP_FSM));
    } else if same_text(group, empty) {
        return Err(
            Usage::Error { sentence: String::from_str("No command given."), help: HELP_TOP },
        );
    } else {
        let mut sentence = String::from_str("Unknown command '");
        sentence.append(group);
        sentence.append("'.");
        return Err(Usage::Error { sentence, help: HELP_TOP });
    };

    Ok(Invocation { store, command })
}

} // verus!
