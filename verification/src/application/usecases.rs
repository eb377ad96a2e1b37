//! Use cases (inbound ports). The use case is the API: the command-line front
//! end calls it directly.
//!
//! Each use case orchestrates the domain and a store, and fails with `AppError`:
//! on the domain channel when a rule refuses the request, on the technical
//! channel when the store fails.
use crate::application::ports::{machine_view, next_seq, LedgerStore, StateStore};
use crate::domain::ledger::{entries_view, is_newest_first_of, LogEntry, LogEntryView, Stream};
use crate::domain::state_machine::{
    allows, declares, is_terminal_in, law_define_rule, law_transition_rule, references, well_formed,
    define_outcome, machine_result, transition_outcome, with_context_outcome, Definition,
    DefinitionView, StateMachine,
    StateMachineView,
};
use crate::error::{AppError, AppErrorView, DomainError, DomainErrorView, TechnicalError};
use vstd::prelude::*;
use vstd::string::StringExecFns;

verus! {

/// What appending an entry does to a ledger model: stream `stream` gains the entry
/// `(seq, at_millis, payload)` at its end and every other stream is unchanged.
pub open spec fn appended<S: LedgerStore>(
    before: S,
    after: S,
    stream: Seq<char>,
    seq: i64,
    at_millis: i64,
    payload: Seq<char>,
) -> bool {
    &&& seq == next_seq(before.ledger().entries(stream))
    &&& after.ledger().entries(stream) == before.ledger().entries(stream).push(
        LogEntryView { seq, at_millis, payload },
    )
    &&& forall|s: Seq<char>| s != stream ==> #[trigger] after.ledger().entries(s) == before.ledger().entries(s)
}

/// Two ledger models hold the same streams.
pub open spec fn same_ledger<S: LedgerStore>(a: S, b: S) -> bool {
    forall|s: Seq<char>| #[trigger] a.ledger().entries(s) == b.ledger().entries(s)
}

/// Two machine-store models hold the same machines.
pub open spec fn same_machines<S: StateStore>(a: S, b: S) -> bool {
    forall|n: Seq<char>| #[trigger] a.machines().machine(n) == b.machines().machine(n)
}

/// `after` holds `m` under `name` and agrees with `before` on every other name.
pub open spec fn saved_as<S: StateStore>(before: S, after: S, name: Seq<char>, m: StateMachineView) -> bool {
    &&& after.machines().machine(name) == Some(m)
    &&& forall|n: Seq<char>| n != name ==> #[trigger] after.machines().machine(n) == before.machines().machine(n)
}

/// The use case hands the store's answer on: its `seq`, or its error on the
/// technical channel.
pub open spec fn add_forwards(r: Result<i64, AppError>, s: Result<i64, TechnicalError>) -> bool {
    match (r, s) {
        (Ok(a), Ok(b)) => a == b,
        (Err(AppError::Technical(t)), Err(e)) => t == e,
        _ => false,
    }
}

/// How a query answers, given what the store's `load_stream` returned: the
/// store's error on the technical channel, `EmptyStream` for a stream without
/// entries, and otherwise the entries most recent first.
pub open spec fn query_answers(r: Result<Vec<LogEntry>, AppError>, loaded: Result<Stream, TechnicalError>) -> bool {
    match loaded {
        Err(e) => r matches Err(AppError::Technical(t)) && t == e,
        Ok(s) => if s@.entries.len() == 0 {
            r matches Err(AppError::Domain(d)) && d@ == (DomainErrorView::EmptyStream {
                stream: s@.name,
            })
        } else {
            r matches Ok(v) && is_newest_first_of(entries_view(v@), s@.entries)
        },
    }
}

/// `r` fails on the technical channel with the very error that the store
/// operation returned as `s`.
pub open spec fn technical_from<T, U>(r: Result<T, AppError>, s: Result<U, TechnicalError>) -> bool {
    r matches Err(AppError::Technical(t)) && s matches Err(e) && t == e
}

/// Append an entry to a stream. The timestamp is supplied by the caller (the
/// composition root): the domain never reads the clock.
pub struct AddLogEntry<'a, S: LedgerStore> {
    pub store: &'a mut S,
    pub at_millis: i64,
}

impl<'a, S: LedgerStore> AddLogEntry<'a, S> {
    /// Append `payload` to `stream` at this use case's timestamp; returns its `seq`.
    pub fn run(&mut self, stream: &str, payload: &str) -> (r: Result<i64, AppError>)
        ensures
            final(self).at_millis == old(self).at_millis,
            match r {
                Ok(seq) => appended(
                    *old(self).store,
                    *final(self).store,
                    stream@,
                    seq,
                    old(self).at_millis,
                    payload@,
                ),
                Err(e) => e@ is Technical && same_ledger(*old(self).store, *final(self).store),
            },
            exists|m: &mut S, s: Result<i64, TechnicalError>|
                mut_ref_current(m) == *old(self).store && mut_ref_future(m) == *final(self).store
                    && #[trigger] call_ensures(
                    S::append,
                    (m, stream, old(self).at_millis, payload),
                    s,
                ) && add_forwards(r, s),
    {
        let ghost before = *self.store;
        let res = self.store.append(stream, self.at_millis, payload);
        assert(exists|m: &mut S|
            mut_ref_current(m) == before && mut_ref_future(m) == *self.store
                && #[trigger] call_ensures(S::append, (m, stream, self.at_millis, payload), res));
        match res {
            Ok(seq) => Ok(seq),
            Err(e) => Err(AppError::Technical(e)),
        }
    }
}

/// Read a stream, most recent first. A domain error if the stream is empty.
pub struct QueryLog<'a, S: LedgerStore> {
    pub store: &'a S,
}

impl<'a, S: LedgerStore> QueryLog<'a, S> {
    /// The entries of `stream`, most recent first; `EmptyStream` when it has none.
    pub fn run(&self, stream: &str) -> (r: Result<Vec<LogEntry>, AppError>)
        ensures
            match r {
                Ok(v) => {
                    &&& self.store.ledger().entries(stream@).len() > 0
                    &&& is_newest_first_of(entries_view(v@), self.store.ledger().entries(stream@))
                },
                Err(e) => e@ is Technical || (e@ == AppErrorView::Domain(
                    DomainErrorView::EmptyStream { stream: stream@ },
                ) && self.store.ledger().entries(stream@).len() == 0),
            },
            exists|loaded: Result<Stream, TechnicalError>|
                call_ensures(S::load_stream, (self.store, stream), loaded) && query_answers(
                    r,
                    loaded,
                ),
    {
        let loaded = self.store.load_stream(stream);
        let ghost returned = loaded;
        assert(call_ensures(S::load_stream, (self.store, stream), returned));
        let r = match loaded {
            Err(e) => Err(AppError::Technical(e)),
            Ok(s) => match s.require_non_empty() {
                Err(e) => Err(AppError::Domain(e)),
                Ok(_) => Ok(s.most_recent_first()),
            },
        };
        assert(query_answers(r, returned));
        r
    }
}

/// What the state of machine `name` reads as, given what the store holds for it.
pub open spec fn state_answer(stored: Option<StateMachineView>, name: Seq<char>) -> Result<
    (Seq<char>, serde_json::Value),
    DomainErrorView,
> {
    match stored {
        None => Err(DomainErrorView::NotInitialized { name }),
        Some(m) => Ok((m.current, m.context)),
    }
}

/// What moving machine `name` to `to` gives, given what the store holds for it:
/// the transition rule applies, then the context is replaced when one is given.
pub open spec fn transition_answer(
    stored: Option<StateMachineView>,
    name: Seq<char>,
    to: Seq<char>,
    context: Option<serde_json::Value>,
) -> Result<StateMachineView, DomainErrorView> {
    match stored {
        None => Err(DomainErrorView::NotInitialized { name }),
        Some(m) => match transition_outcome(m, to) {
            Err(e) => Err(e),
            Ok(m2) => Ok(with_context_outcome(m2, context)),
        },
    }
}

/// The domain step of a transition, on what the store returned for machine
/// `name`: no machine is `NotInitialized`; otherwise the transition rule
/// applies, then the context is replaced when one is given.
pub fn advance(loaded: Option<StateMachine>, name: &str, to: &str, context: Option<serde_json::Value>) -> (r:
    Result<StateMachine, DomainError>)
    ensures
        machine_result(r) == transition_answer(machine_view(loaded), name@, to@, context),
{
    let machine = match loaded {
        Some(m) => m,
        None => {
            return Err(DomainError::NotInitialized { name: String::from_str(name) });
        },
    };
    match machine.transition(to) {
        Ok(m) => Ok(m.with_context(context)),
        Err(e) => Err(e),
    }
}

/// The domain step of reading a machine, on what the store returned for machine
/// `name`: its current state and context, or `NotInitialized`.
pub fn state_of(loaded: Option<StateMachine>, name: &str) -> (r: Result<(String, serde_json::Value), DomainError>)
    ensures
        match r {
            Ok((current, context)) => state_answer(machine_view(loaded), name@) == Ok::<
                (Seq<char>, serde_json::Value),
                DomainErrorView,
            >((current@, context)),
            Err(e) => state_answer(machine_view(loaded), name@) == Err::<
                (Seq<char>, serde_json::Value),
                DomainErrorView,
            >(e@),
        },
{
    match loaded {
        Some(m) => Ok((m.current, m.context)),
        None => Err(DomainError::NotInitialized { name: String::from_str(name) }),
    }
}

/// Define (or redefine) a machine from its rules; it starts at the initial state.
/// A domain error if the definition references unknown states.
pub struct DefineMachine<'a, S: StateStore> {
    pub store: &'a mut S,
}

impl<'a, S: StateStore> DefineMachine<'a, S> {
    /// Define machine `name` with `def`, born with `context`; returns its current state.
    pub fn run(&mut self, name: &str, def: Definition, context: serde_json::Value) -> (r: Result<
        String,
        AppError,
    >)
        ensures
            define_outcome(def@, context) matches Err(e) ==> r matches Err(AppError::Domain(d))
                && d@ == e,
            match r {
                Ok(current) => define_outcome(def@, context) matches Ok(m) && current@ == m.current
                    && saved_as(*old(self).store, *final(self).store, name@, m),
                Err(AppError::Domain(e)) => define_outcome(def@, context) == Err::<
                    StateMachineView,
                    DomainErrorView,
                >(e@) && same_machines(*old(self).store, *final(self).store),
                Err(AppError::Technical(_)) => same_machines(*old(self).store, *final(self).store),
            },
            r matches Err(AppError::Technical(_)) ==> define_outcome(def@, context) is Ok && exists|
                m: &mut S,
                machine: StateMachine,
                s: Result<(), TechnicalError>,
            |
                mut_ref_current(m) == *old(self).store && mut_ref_future(m) == *final(self).store
                    && machine@ == define_outcome(def@, context)->Ok_0 && #[trigger] call_ensures(
                    S::save,
                    (m, name, &machine),
                    s,
                ) && technical_from(r, s),
    {
        let machine = match StateMachine::define(def, context) {
            Ok(m) => m,
            Err(e) => return Err(AppError::Domain(e)),
        };
        let ghost before = *self.store;
        let saved = self.store.save(name, &machine);
        assert(exists|m: &mut S|
            mut_ref_current(m) == before && mut_ref_future(m) == *self.store
                && #[trigger] call_ensures(S::save, (m, name, &machine), saved));
        match saved {
            Ok(()) => Ok(machine.current),
            Err(e) => Err(AppError::Technical(e)),
        }
    }
}

/// The read-modify-write use case: load the machine, apply a domain transition,
/// save it back. Load and save are technical; the transition rule is domain.
pub struct Transition<'a, S: StateStore> {
    pub store: &'a mut S,
}

impl<'a, S: StateStore> Transition<'a, S> {
    /// Move machine `name` to `to`. `context` is the whole-blob replacement:
    /// `Some` overwrites the context along with the move, `None` leaves it untouched.
    pub fn run(&mut self, name: &str, to: &str, context: Option<serde_json::Value>) -> (r: Result<
        String,
        AppError,
    >)
        ensures
            match r {
                Ok(current) => transition_answer(old(self).store.machines().machine(name@), name@, to@, context)
                    matches Ok(m) && current@ == m.current && saved_as(
                    *old(self).store,
                    *final(self).store,
                    name@,
                    m,
                ),
                Err(AppError::Domain(e)) => transition_answer(
                    old(self).store.machines().machine(name@),
                    name@,
                    to@,
                    context,
                ) == Err::<StateMachineView, DomainErrorView>(e@) && same_machines(
                    *old(self).store,
                    *final(self).store,
                ),
                Err(AppError::Technical(_)) => same_machines(*old(self).store, *final(self).store),
            },
            r matches Err(AppError::Technical(_)) ==> (exists|
                st: &S,
                loaded: Result<Option<StateMachine>, TechnicalError>,
            | *st == *old(self).store && #[trigger] call_ensures(S::load, (st, name), loaded)
                && technical_from(r, loaded)) || (transition_answer(
                old(self).store.machines().machine(name@),
                name@,
                to@,
                context,
            ) is Ok && exists|m: &mut S, machine: StateMachine, s: Result<(), TechnicalError>|
                mut_ref_current(m) == *old(self).store && mut_ref_future(m) == *final(self).store
                    && machine@ == transition_answer(
                    old(self).store.machines().machine(name@),
                    name@,
                    to@,
                    context,
                )->Ok_0 && #[trigger] call_ensures(S::save, (m, name, &machine), s) && technical_from(
                    r,
                    s,
                )),
    {
        let loaded = self.store.load(name);
        let ghost returned = loaded;
        assert(call_ensures(S::load, (&*self.store, name), returned));
        match loaded {
            Err(e) => Err(AppError::Technical(e)),
            Ok(o) => match advance(o, name, to, context) {
                Err(e) => Err(AppError::Domain(e)),
                Ok(advanced) => {
                    let ghost before = *self.store;
                    let saved = self.store.save(name, &advanced);
                    assert(exists|m: &mut S|
                        mut_ref_current(m) == before && mut_ref_future(m) == *self.store
                            && #[trigger] call_ensures(S::save, (m, name, &advanced), saved));
                    match saved {
                        Ok(()) => Ok(advanced.current),
                        Err(e) => Err(AppError::Technical(e)),
                    }
                },
            },
        }
    }
}

/// How reading machine `name` answers, given what the store's `load` returned:
/// the store's error on the technical channel, and otherwise the machine's
/// current state and context, or `NotInitialized`.
pub open spec fn state_answers(
    r: Result<(String, serde_json::Value), AppError>,
    loaded: Result<Option<StateMachine>, TechnicalError>,
    name: Seq<char>,
) -> bool {
    match loaded {
        Err(e) => r matches Err(AppError::Technical(t)) && t == e,
        Ok(o) => match r {
            Ok((current, context)) => state_answer(machine_view(o), name) == Ok::<
                (Seq<char>, serde_json::Value),
                DomainErrorView,
            >((current@, context)),
            Err(AppError::Domain(d)) => state_answer(machine_view(o), name) == Err::<
                (Seq<char>, serde_json::Value),
                DomainErrorView,
            >(d@),
            Err(AppError::Technical(_)) => false,
        },
    }
}

/// Read the current state of a machine. A domain error if it was never defined.
pub struct GetState<'a, S: StateStore> {
    pub store: &'a S,
}

impl<'a, S: StateStore> GetState<'a, S> {
    /// Returns `(current state, context blob)`: the consumer reads its cursor here.
    pub fn run(&self, name: &str) -> (r: Result<(String, serde_json::Value), AppError>)
        ensures
            match r {
                Ok((current, context)) => state_answer(self.store.machines().machine(name@), name@) == Ok::<
                    (Seq<char>, serde_json::Value),
                    DomainErrorView,
                >((current@, context)),
                Err(AppError::Domain(e)) => state_answer(self.store.machines().machine(name@), name@) == Err::<
                    (Seq<char>, serde_json::Value),
                    DomainErrorView,
                >(e@),
                Err(AppError::Technical(_)) => true,
            },
            exists|loaded: Result<Option<StateMachine>, TechnicalError>|
                #[trigger] call_ensures(S::load, (self.store, name), loaded) && state_answers(
                    r,
                    loaded,
                    name@,
                ),
    {
        let loaded = self.store.load(name);
        let ghost returned = loaded;
        assert(call_ensures(S::load, (self.store, name), returned));
        let r = match loaded {
            Err(e) => Err(AppError::Technical(e)),
            Ok(o) => match state_of(o, name) {
                Ok(answer) => Ok(answer),
                Err(e) => Err(AppError::Domain(e)),
            },
        };
        assert(state_answers(r, returned, name@));
        r
    }
}

/// Law: reading a machine right after defining it gives its initial state and
/// the context it was defined with.
pub proof fn law_state_after_define(
    def: DefinitionView,
    context: serde_json::Value,
    name: Seq<char>,
)
    requires
        define_outcome(def, context) is Ok,
    ensures
        state_answer(Some(define_outcome(def, context)->Ok_0), name) == Ok::<
            (Seq<char>, serde_json::Value),
            DomainErrorView,
        >((def.initial, context)),
{
}

/// Law: a successful transition leaves the machine on the requested state with
/// the same rules; its context is the given blob when one is given, and the
/// previous context otherwise. Reading the machine back gives exactly that.
pub proof fn law_transition_then_state(
    m: StateMachineView,
    name: Seq<char>,
    to: Seq<char>,
    context: Option<serde_json::Value>,
)
    requires
        transition_answer(Some(m), name, to, context) is Ok,
    ensures
        ({
            let m2 = transition_answer(Some(m), name, to, context)->Ok_0;
            &&& m2.current == to
            &&& m2.def == m.def
            &&& m2.context == match context {
                Some(c) => c,
                None => m.context,
            }
            &&& state_answer(Some(m2), name) == Ok::<
                (Seq<char>, serde_json::Value),
                DomainErrorView,
            >((to, m2.context))
        }),
{
}

/// Law: a machine that was never defined can neither be read nor moved.
pub proof fn law_undefined_machine(name: Seq<char>, to: Seq<char>, context: Option<serde_json::Value>)
    ensures
        state_answer(None, name) == Err::<(Seq<char>, serde_json::Value), DomainErrorView>(
            DomainErrorView::NotInitialized { name },
        ),
        transition_answer(None, name, to, context) == Err::<StateMachineView, DomainErrorView>(
            DomainErrorView::NotInitialized { name },
        ),
{
}


/// Law: a query fails on the technical channel only with an error that the
/// store's `load_stream` returns for that stream; and when the store loads the
/// stream without failing, the query answers from what the stream holds: its
/// entries most recent first, or `EmptyStream` when it holds none.
pub proof fn law_query_answers_from_the_store<'a, S: LedgerStore>(
    q: &QueryLog<'a, S>,
    stream: &str,
    r: Result<Vec<LogEntry>, AppError>,
)
    requires
        call_ensures(QueryLog::<'a, S>::run, (q, stream), r),
    ensures
        r matches Err(AppError::Technical(t)) ==> call_ensures(
            S::load_stream,
            (q.store, stream),
            Err::<Stream, TechnicalError>(t),
        ),
        (forall|o: Result<Stream, TechnicalError>|
            #[trigger] call_ensures(S::load_stream, (q.store, stream), o) ==> o is Ok) ==> {
            let held = q.store.ledger().entries(stream@);
            &&& held.len() > 0 ==> (r matches Ok(v) && is_newest_first_of(entries_view(v@), held))
            &&& held.len() == 0 ==> (r matches Err(e) && e@ == AppErrorView::Domain(
                DomainErrorView::EmptyStream { stream: stream@ },
            ))
        },
{
}

/// Law: reading a machine fails on the technical channel only with an error
/// that the store's `load` returns for that name; and when the store loads
/// without failing, the answer is what the store holds: the current state and
/// context of the machine saved under the name, or `NotInitialized` when none is.
pub proof fn law_state_answers_from_the_store<'a, S: StateStore>(
    g: &GetState<'a, S>,
    name: &str,
    r: Result<(String, serde_json::Value), AppError>,
)
    requires
        call_ensures(GetState::<'a, S>::run, (g, name), r),
    ensures
        r matches Err(AppError::Technical(t)) ==> call_ensures(
            S::load,
            (g.store, name),
            Err::<Option<StateMachine>, TechnicalError>(t),
        ),
        (forall|o: Result<Option<StateMachine>, TechnicalError>|
            #[trigger] call_ensures(S::load, (g.store, name), o) ==> o is Ok) ==> match g.store.machines().machine(name@) {
            Some(m) => r matches Ok((current, context)) && current@ == m.current && context == m.context,
            None => r matches Err(e) && e@ == AppErrorView::Domain(
                DomainErrorView::NotInitialized { name: name@ },
            ),
        },
{
}

/// Law: appending fails only when the store's `append` fails, and then with the
/// store's error; whenever the store's `append` succeeds the use case returns
/// `Ok(seq)`, where `seq` is one more than the highest sequence number the stream
/// held, and the stream gains the entry at its end with the use case's timestamp
/// while every other stream stays as it was.
pub proof fn law_add_fails_only_when_the_store_fails<'a, S: LedgerStore>()
    ensures
        forall|u: &mut AddLogEntry<'a, S>, stream: &str, payload: &str, r: Result<i64, AppError>|
            #[trigger] call_ensures(AddLogEntry::<'a, S>::run, (u, stream, payload), r) ==> {
                let at = mut_ref_current(u).at_millis;
                let before = *mut_ref_current(u).store;
                let after = *mut_ref_future(u).store;
                &&& (r matches Err(AppError::Technical(t)) ==> exists|m: &mut S|
                    mut_ref_current(m) == before && mut_ref_future(m) == after
                        && #[trigger] call_ensures(
                        S::append,
                        (m, stream, at, payload),
                        Err::<i64, TechnicalError>(t),
                    ))
                &&& (r is Err ==> r matches Err(AppError::Technical(_)))
                &&& (forall|m: &mut S, s: Result<i64, TechnicalError>|
                    mut_ref_current(m) == before && #[trigger] call_ensures(
                        S::append,
                        (m, stream, at, payload),
                        s,
                    ) ==> s is Ok) ==> r is Ok
                &&& (r matches Ok(seq) ==> {
                    &&& seq == next_seq(before.ledger().entries(stream@))
                    &&& after.ledger().entries(stream@) == before.ledger().entries(stream@).push(
                        LogEntryView { seq, at_millis: at, payload: payload@ },
                    )
                    &&& forall|other: Seq<char>|
                        other != stream@ ==> #[trigger] after.ledger().entries(other)
                            == before.ledger().entries(other)
                })
            },
{
}

/// Law: defining a machine saves it exactly when its definition is
/// well-formed and the store's `save` succeeds. On success the machine sits on
/// the initial state with the given rules and context under `name`, and every
/// other name is untouched; a definition that references an undeclared state is
/// refused as `UnknownState` naming one, with nothing saved; and the technical
/// channel only carries an error that the store's `save` returned for that
/// machine.
pub proof fn law_define_saves_well_formed_machines<'a, S: StateStore>()
    ensures
        forall|
            u: &mut DefineMachine<'a, S>,
            name: &str,
            def: Definition,
            context: serde_json::Value,
            r: Result<String, AppError>,
        |
            #[trigger] call_ensures(DefineMachine::<'a, S>::run, (u, name, def, context), r) ==> {
                let before = *mut_ref_current(u).store;
                let after = *mut_ref_future(u).store;
                let born = StateMachineView { def: def@, current: def@.initial, context };
                &&& (r matches Ok(current) ==> {
                    &&& well_formed(def@)
                    &&& current@ == def@.initial
                    &&& after.machines().machine(name@) == Some(born)
                    &&& forall|n: Seq<char>|
                        n != name@ ==> #[trigger] after.machines().machine(n) == before.machines().machine(n)
                })
                &&& (!well_formed(def@) ==> (r matches Err(AppError::Domain(e))
                    && e@ matches DomainErrorView::UnknownState { state } && !declares(def@, state)
                    && references(def@, state)))
                &&& (r matches Err(AppError::Domain(_)) ==> !well_formed(def@) && same_machines(
                    before,
                    after,
                ))
                &&& (r matches Err(AppError::Technical(t)) ==> well_formed(def@) && exists|
                    m: &mut S,
                    machine: StateMachine,
                |
                    mut_ref_current(m) == before && mut_ref_future(m) == after && machine@ == born
                        && #[trigger] call_ensures(
                        S::save,
                        (m, name, &machine),
                        Err::<(), TechnicalError>(t),
                    ))
            },
{
    assert forall|d: DefinitionView, c: serde_json::Value|
        (well_formed(d) ==> #[trigger] define_outcome(d, c) == Ok::<StateMachineView, DomainErrorView>(
            StateMachineView { def: d, current: d.initial, context: c },
        )) && (!well_formed(d) ==> (define_outcome(d, c) matches Err(
            DomainErrorView::UnknownState { state },
        ) && !declares(d, state) && references(d, state))) by {
        law_define_rule(d, c);
    }
}

/// Law: a transition is decided by the transition rule on the machine the store
/// holds. A machine never defined is `NotInitialized`; an undeclared target is
/// `UnknownState`; a move out of a terminal state or without an edge is
/// `IllegalTransition`; a refused move saves nothing. A declared target reached
/// by an edge from a non-terminal state is never refused on the domain channel:
/// the machine is saved on the target, with its rules, and with the given
/// context or else the one it had, other names untouched. The technical channel
/// only carries an error that the store's `load` or `save` returned.
pub proof fn law_transition_follows_the_rule<'a, S: StateStore>()
    ensures
        forall|
            u: &mut Transition<'a, S>,
            name: &str,
            to: &str,
            context: Option<serde_json::Value>,
            r: Result<String, AppError>,
        |
            #[trigger] call_ensures(Transition::<'a, S>::run, (u, name, to, context), r) ==> {
                let before = *mut_ref_current(u).store;
                let after = *mut_ref_future(u).store;
                let stored = before.machines().machine(name@);
                &&& (r matches Ok(current) ==> {
                    &&& stored is Some
                    &&& declares(stored->Some_0.def, to@)
                    &&& !is_terminal_in(stored->Some_0.def, stored->Some_0.current)
                    &&& allows(stored->Some_0.def, stored->Some_0.current, to@)
                    &&& current@ == to@
                    &&& after.machines().machine(name@) == Some(
                        StateMachineView {
                            def: stored->Some_0.def,
                            current: to@,
                            context: match context {
                                Some(c) => c,
                                None => stored->Some_0.context,
                            },
                        },
                    )
                    &&& forall|n: Seq<char>|
                        n != name@ ==> #[trigger] after.machines().machine(n) == before.machines().machine(n)
                })
                &&& (r matches Err(AppError::Domain(e)) ==> {
                    &&& same_machines(before, after)
                    &&& match stored {
                        None => e@ == DomainErrorView::NotInitialized { name: name@ },
                        Some(m) => if !declares(m.def, to@) {
                            e@ == DomainErrorView::UnknownState { state: to@ }
                        } else {
                            &&& is_terminal_in(m.def, m.current) || !allows(m.def, m.current, to@)
                            &&& e@ == DomainErrorView::IllegalTransition { from: m.current, to: to@ }
                        },
                    }
                })
                &&& (r matches Err(AppError::Technical(t)) ==> (exists|st: &S|
                    *st == before && #[trigger] call_ensures(
                        S::load,
                        (st, name),
                        Err::<Option<StateMachine>, TechnicalError>(t),
                    )) || (exists|m: &mut S, machine: StateMachine|
                    mut_ref_current(m) == before && mut_ref_future(m) == after
                        && #[trigger] call_ensures(
                        S::save,
                        (m, name, &machine),
                        Err::<(), TechnicalError>(t),
                    )))
            },
{
    assert forall|m: StateMachineView, to: Seq<char>|
        (declares(m.def, to) && !is_terminal_in(m.def, m.current) && allows(m.def, m.current, to)
            ==> #[trigger] transition_outcome(m, to) == Ok::<StateMachineView, DomainErrorView>(
            StateMachineView { def: m.def, current: to, context: m.context },
        )) && (!declares(m.def, to) ==> transition_outcome(m, to) == Err::<
            StateMachineView,
            DomainErrorView,
        >(DomainErrorView::UnknownState { state: to })) && (declares(m.def, to) && (is_terminal_in(
            m.def,
            m.current,
        ) || !allows(m.def, m.current, to)) ==> transition_outcome(m, to) == Err::<
            StateMachineView,
            DomainErrorView,
        >(DomainErrorView::IllegalTransition { from: m.current, to })) by {
        law_transition_rule(m, to);
    }
}

} // verus!
