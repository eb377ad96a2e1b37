//! Outbound interfaces: one store trait per entity, in the domain's vocabulary.
//!
//! A store only fails with `TechnicalError`: a persistence failure is always
//! technical. Each trait describes its store by a mathematical model, and each
//! operation states what it does to that model.
use crate::domain::ledger::{strictly_increasing, LogEntryView, Stream, StreamSummary, StreamView};
use crate::text::text_precedes;
use crate::domain::state_machine::{StateMachine, StateMachineView};
use crate::error::TechnicalError;
use vstd::prelude::*;

verus! {

/// The highest sequence number of `s`, or 0 when `s` is empty.
pub open spec fn highest_seq(s: Seq<LogEntryView>) -> int
    decreases s.len(),
{
    if s.len() == 0 {
        0
    } else if s.len() == 1 {
        s[0].seq as int
    } else {
        let m = highest_seq(s.drop_last());
        if s.last().seq > m {
            s.last().seq as int
        } else {
            m
        }
    }
}

/// The latest timestamp of `s`, or 0 when `s` is empty.
pub open spec fn latest_at(s: Seq<LogEntryView>) -> int
    decreases s.len(),
{
    if s.len() == 0 {
        0
    } else if s.len() == 1 {
        s[0].at_millis as int
    } else {
        let m = latest_at(s.drop_last());
        if s.last().at_millis > m {
            s.last().at_millis as int
        } else {
            m
        }
    }
}

/// `summary` describes stream `name` as it holds `entries`.
pub open spec fn summarizes(summary: StreamSummary, entries: Seq<LogEntryView>) -> bool {
    &&& summary.count == entries.len()
    &&& summary.last_seq == highest_seq(entries)
    &&& summary.last_at == latest_at(entries)
}

/// The sequence number that the next entry of a stream holding `s` receives.
pub open spec fn next_seq(s: Seq<LogEntryView>) -> int {
    highest_seq(s) + 1
}

/// No entry of `s` has a sequence number above `highest_seq(s)`.
proof fn lemma_highest_seq_bounds(s: Seq<LogEntryView>)
    ensures
        forall|i: int| 0 <= i < s.len() ==> #[trigger] s[i].seq <= highest_seq(s),
    decreases s.len(),
{
    if s.len() > 1 {
        lemma_highest_seq_bounds(s.drop_last());
        assert forall|i: int| 0 <= i < s.len() implies #[trigger] s[i].seq <= highest_seq(s) by {
            if i < s.len() - 1 {
                assert(s[i] == s.drop_last()[i]);
            }
        }
    }
}

/// Law: the sequence number an append assigns exceeds that of every entry the
/// stream already holds, so sequence numbers are monotonic per stream.
pub proof fn law_next_seq_exceeds_every_entry(s: Seq<LogEntryView>)
    ensures
        forall|i: int| 0 <= i < s.len() ==> #[trigger] s[i].seq < next_seq(s),
{
    lemma_highest_seq_bounds(s);
}

/// Law: appending with the assigned sequence number keeps a stream's sequence
/// numbers strictly increasing; so does every stream built by appends alone.
pub proof fn law_append_keeps_strictly_increasing(s: Seq<LogEntryView>, e: LogEntryView)
    requires
        strictly_increasing(s),
        e.seq == next_seq(s),
    ensures
        strictly_increasing(s.push(e)),
{
    law_next_seq_exceeds_every_entry(s);
    assert forall|i: int, j: int| 0 <= i < j < s.push(e).len() implies s.push(e)[i].seq < s.push(
        e,
    )[j].seq by {
        if j == s.len() {
            assert(s.push(e)[i] == s[i]);
        } else {
            assert(s.push(e)[i] == s[i] && s.push(e)[j] == s[j]);
        }
    }
}

/// The contents of a ledger store: the entries of every stream that holds any,
/// in store order.
pub struct LedgerModel {
    pub streams: Map<Seq<char>, Seq<LogEntryView>>,
}

impl LedgerModel {
    /// The entries of stream `stream` (none for a stream never written).
    pub open spec fn entries(self, stream: Seq<char>) -> Seq<LogEntryView> {
        if self.streams.dom().contains(stream) {
            self.streams[stream]
        } else {
            Seq::empty()
        }
    }
}

/// The contents of a machine store: the machine saved last under each name.
pub struct MachinesModel {
    pub saved: Map<Seq<char>, StateMachineView>,
}

impl MachinesModel {
    /// The machine saved under `name`, if any.
    pub open spec fn machine(self, name: Seq<char>) -> Option<StateMachineView> {
        if self.saved.dom().contains(name) {
            Some(self.saved[name])
        } else {
            None
        }
    }
}

/// The view of an optional machine.
pub open spec fn machine_view(o: Option<StateMachine>) -> Option<StateMachineView> {
    match o {
        Some(m) => Some(m@),
        None => None,
    }
}

/// A store of append-only streams. Its model, `ledger`, gives for every stream
/// name the entries the stream holds in store order (none for an unknown stream).
/// A store outside verified code implements `ledger` with a body that is never
/// run: the model exists only in proofs.
pub trait LedgerStore {
    /// What the store holds: the entries of every stream, in store order.
    spec fn ledger(&self) -> LedgerModel;

    /// Append an entry to the stream and return the assigned `seq`: one more than
    /// the highest `seq` of the stream (1 for a new stream). Other streams are
    /// untouched; on failure nothing changes.
    fn append(&mut self, stream: &str, at_millis: i64, payload: &str) -> (r: Result<i64, TechnicalError>)
        ensures
            match r {
                Ok(seq) => {
                    &&& seq == next_seq(old(self).ledger().entries(stream@))
                    &&& final(self).ledger().entries(stream@) == old(self).ledger().entries(stream@).push(
                        LogEntryView { seq, at_millis, payload: payload@ },
                    )
                    &&& forall|s: Seq<char>|
                        s != stream@ ==> #[trigger] final(self).ledger().entries(s) == old(self).ledger().entries(s)
                },
                Err(_) => forall|s: Seq<char>| #[trigger]
                    final(self).ledger().entries(s) == old(self).ledger().entries(s),
            },
    ;

    /// Load every entry of a stream (an empty stream if the stream is unknown).
    fn load_stream(&self, stream: &str) -> (r: Result<Stream, TechnicalError>)
        ensures
            r matches Ok(s) ==> s@ == (StreamView { name: stream@, entries: self.ledger().entries(stream@) }),
    ;

    /// One summary per stream that holds entries, in name order, for an overview;
    /// the entries themselves are not loaded.
    fn stream_summaries(&self) -> (r: Result<Vec<StreamSummary>, TechnicalError>)
        ensures
            r matches Ok(v) ==> {
                &&& forall|i: int|
                    0 <= i < v.len() ==> self.ledger().entries(#[trigger] v[i].name@).len() > 0
                        && summarizes(v[i], self.ledger().entries(v[i].name@))
                &&& forall|s: Seq<char>|
                    #![trigger self.ledger().entries(s)]
                    self.ledger().entries(s).len() > 0 ==> exists|i: int|
                        0 <= i < v.len() && #[trigger] v[i].name@ == s
                &&& forall|i: int, j: int|
                    0 <= i < j < v.len() ==> text_precedes(v[i].name@, v[j].name@)
            },
    ;
}

/// A store of named machines. Its model, `machines`, gives for every name the
/// machine saved under it last (none if never saved). A store outside verified
/// code implements `machines` with a body that is never run.
pub trait StateStore {
    /// What the store holds: the machine saved under each name.
    spec fn machines(&self) -> MachinesModel;

    /// Load a machine by name (`None` if never defined).
    fn load(&self, name: &str) -> (r: Result<Option<StateMachine>, TechnicalError>)
        ensures
            r matches Ok(o) ==> machine_view(o) == self.machines().machine(name@),
    ;

    /// Upsert the machine's definition, current state and context. Other names are
    /// untouched; on failure nothing changes.
    fn save(&mut self, name: &str, machine: &StateMachine) -> (r: Result<(), TechnicalError>)
        ensures
            r is Ok ==> final(self).machines().machine(name@) == Some(machine@),
            r is Ok ==> forall|n: Seq<char>|
                n != name@ ==> #[trigger] final(self).machines().machine(n) == old(self).machines().machine(n),
            r is Err ==> forall|n: Seq<char>| #[trigger]
                final(self).machines().machine(n) == old(self).machines().machine(n),
    ;

    /// Every machine paired with its name, in name order, for an overview.
    fn list(&self) -> (r: Result<Vec<(String, StateMachine)>, TechnicalError>)
        ensures
            r matches Ok(v) ==> {
                &&& forall|i: int|
                    0 <= i < v.len() ==> self.machines().machine(#[trigger] v[i].0@) == Some(v[i].1@)
                &&& forall|n: Seq<char>|
                    #![trigger self.machines().machine(n)]
                    self.machines().machine(n) is Some ==> exists|i: int|
                        0 <= i < v.len() && #[trigger] v[i].0@ == n
                &&& forall|i: int, j: int|
                    0 <= i < j < v.len() ==> text_precedes(v[i].0@, v[j].0@)
            },
    ;
}

} // verus!
