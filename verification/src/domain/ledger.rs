//! `Ledger` entity: an append-only journal per stream.
//!
//! An existing entry is never mutated or deleted; reading a stream gives its
//! entries most recent first.
use crate::error::{DomainError, DomainErrorView};
use vstd::prelude::*;
use vstd::string::StringExecFns;

verus! {

/// A sealed journal entry.
#[derive(Debug)]
pub struct LogEntry {
    pub seq: i64,
    pub at_millis: i64,
    pub payload: String,
}

/// The mathematical value of a `LogEntry`.
pub struct LogEntryView {
    pub seq: i64,
    pub at_millis: i64,
    pub payload: Seq<char>,
}

impl View for LogEntry {
    type V = LogEntryView;

    open spec fn view(&self) -> LogEntryView {
        LogEntryView { seq: self.seq, at_millis: self.at_millis, payload: self.payload@ }
    }
}

impl Clone for LogEntry {
    fn clone(&self) -> (r: Self)
        ensures
            r@ == self@,
    {
        LogEntry { seq: self.seq, at_millis: self.at_millis, payload: self.payload.clone() }
    }
}

/// The views of a sequence of entries.
pub open spec fn entries_view(s: Seq<LogEntry>) -> Seq<LogEntryView> {
    s.map_values(|e: LogEntry| e@)
}

/// Selects the entries that carry sequence number `v`.
pub open spec fn with_seq(v: i64) -> spec_fn(LogEntryView) -> bool {
    |e: LogEntryView| e.seq == v
}

/// Entries ordered most recent first: sequence numbers never increase.
pub open spec fn is_newest_first(s: Seq<LogEntryView>) -> bool {
    forall|i: int, j: int| 0 <= i < j < s.len() ==> s[i].seq >= s[j].seq
}

/// `out` is `input` ordered most recent first by a stable sort: `out` is ordered by
/// non-increasing `seq`, and for every sequence number the entries that carry it
/// appear in `out` exactly as, and in the same order as, in `input`.
pub open spec fn is_newest_first_of(out: Seq<LogEntryView>, input: Seq<LogEntryView>) -> bool {
    &&& is_newest_first(out)
    &&& forall|v: i64| #[trigger] out.filter(with_seq(v)) == input.filter(with_seq(v))
}

/// An overview of a stream, read without loading its entries: its name, how
/// many entries it holds, its highest `seq` and its latest `at_millis`.
#[derive(Debug)]
pub struct StreamSummary {
    pub name: String,
    pub count: i64,
    pub last_seq: i64,
    pub last_at: i64,
}

/// View of a stream. Used to express read invariants.
pub struct Stream {
    name: String,
    entries: Vec<LogEntry>,
}

/// The mathematical value of a `Stream`: its name and its entries in store order.
pub struct StreamView {
    pub name: Seq<char>,
    pub entries: Seq<LogEntryView>,
}

impl View for Stream {
    type V = StreamView;

    closed spec fn view(&self) -> StreamView {
        StreamView { name: self.name@, entries: entries_view(self.entries@) }
    }
}

proof fn lemma_filter_none(s: Seq<LogEntryView>, p: spec_fn(LogEntryView) -> bool)
    requires
        forall|i: int| 0 <= i < s.len() ==> !p(s[i]),
    ensures
        s.filter(p) =~= Seq::<LogEntryView>::empty(),
    decreases s.len(),
{
    reveal(Seq::filter);
    if s.len() > 0 {
        lemma_filter_none(s.drop_last(), p);
    }
}

proof fn lemma_filter_push(s: Seq<LogEntryView>, e: LogEntryView, p: spec_fn(LogEntryView) -> bool)
    ensures
        s.push(e).filter(p) == (if p(e) { s.filter(p).push(e) } else { s.filter(p) }),
{
    reveal(Seq::filter);
    assert(s.push(e).drop_last() =~= s);
}

proof fn lemma_insert_in_place(
    out: Seq<LogEntryView>,
    k: int,
    e: LogEntryView,
    prefix: Seq<LogEntryView>,
)
    requires
        0 <= k <= out.len(),
        is_newest_first(out),
        forall|j: int| 0 <= j < k ==> out[j].seq >= e.seq,
        forall|j: int| k <= j < out.len() ==> out[j].seq < e.seq,
        forall|v: i64| #[trigger] out.filter(with_seq(v)) == prefix.filter(with_seq(v)),
    ensures
        is_newest_first_of(out.insert(k, e), prefix.push(e)),
{
    let out2 = out.insert(k, e);
    let left = out.take(k);
    let right = out.skip(k);
    assert(out2 =~= left + seq![e] + right);
    assert(out =~= left + right);
    assert forall|v: i64| #[trigger] out2.filter(with_seq(v)) == prefix.push(e).filter(with_seq(v)) by {
        let p = with_seq(v);
        Seq::filter_distributes_over_add(left + seq![e], right, p);
        Seq::filter_distributes_over_add(left, seq![e], p);
        Seq::filter_distributes_over_add(left, right, p);
        lemma_filter_push(prefix, e, p);
        lemma_filter_push(Seq::<LogEntryView>::empty(), e, p);
        assert(Seq::<LogEntryView>::empty().push(e) =~= seq![e]);
        lemma_filter_none(Seq::<LogEntryView>::empty(), p);
        assert(out.filter(p) == prefix.filter(p));
        if v == e.seq {
            lemma_filter_none(right, p);
        }
    }
}

/// Sequence numbers strictly increase along `s`.
pub open spec fn strictly_increasing(s: Seq<LogEntryView>) -> bool {
    forall|i: int, j: int| 0 <= i < j < s.len() ==> s[i].seq < s[j].seq
}

proof fn lemma_split_first(s: Seq<LogEntryView>)
    requires
        s.len() > 0,
    ensures
        s == seq![s[0]] + s.drop_first(),
{
    assert(s =~= seq![s[0]] + s.drop_first());
}

/// An entry that the `v`-filter of `s` holds carries `v` and stands in `s`.
proof fn lemma_filter_member(s: Seq<LogEntryView>, v: i64, x: LogEntryView)
    requires
        s.filter(with_seq(v)).contains(x),
    ensures
        x.seq == v,
        s.contains(x),
{
    s.lemma_filter_contains_rev(with_seq(v), x);
    let i = choose|i: int| 0 <= i < s.filter(with_seq(v)).len() && s.filter(with_seq(v))[i] == x;
    s.lemma_filter_pred(with_seq(v), i);
}

/// Two sequences ordered most recent first that agree, for every sequence
/// number, on the entries that carry it, are equal.
proof fn lemma_same_order(a: Seq<LogEntryView>, b: Seq<LogEntryView>)
    requires
        is_newest_first(a),
        is_newest_first(b),
        forall|v: i64| #[trigger] a.filter(with_seq(v)) == b.filter(with_seq(v)),
    ensures
        a == b,
    decreases a.len() + b.len(),
{
    if a.len() == 0 && b.len() == 0 {
        assert(a =~= b);
        return;
    }
    if a.len() == 0 || b.len() == 0 {
        let (full, empty) = if a.len() == 0 { (b, a) } else { (a, b) };
        let k = full[0].seq;
        lemma_split_first(full);
        full.drop_first().lemma_filter_prepend(full[0], with_seq(k));
        lemma_filter_none(empty, with_seq(k));
        assert(full.filter(with_seq(k)).len() >= 1);
        assert(a.filter(with_seq(k)) == b.filter(with_seq(k)));
        assert(false);
        return;
    }
    let ka = a[0].seq;
    let kb = b[0].seq;
    lemma_split_first(a);
    lemma_split_first(b);
    let a1 = a.drop_first();
    let b1 = b.drop_first();
    assert forall|v: i64| #[trigger] a.filter(with_seq(v)) == (if a[0].seq == v {
        seq![a[0]]
    } else {
        Seq::<LogEntryView>::empty()
    }) + a1.filter(with_seq(v)) by {
        a1.lemma_filter_prepend(a[0], with_seq(v));
    }
    assert forall|v: i64| #[trigger] b.filter(with_seq(v)) == (if b[0].seq == v {
        seq![b[0]]
    } else {
        Seq::<LogEntryView>::empty()
    }) + b1.filter(with_seq(v)) by {
        b1.lemma_filter_prepend(b[0], with_seq(v));
    }
    // The leading sequence numbers agree: each occurs in the other sequence.
    assert(a.filter(with_seq(ka))[0] == a[0]);
    assert(b.filter(with_seq(ka)).contains(a[0]));
    lemma_filter_member(b, ka, a[0]);
    let jb = choose|j: int| 0 <= j < b.len() && b[j] == a[0];
    assert(b[0].seq >= b[jb].seq);
    assert(b.filter(with_seq(kb))[0] == b[0]);
    assert(a.filter(with_seq(kb)).contains(b[0]));
    lemma_filter_member(a, kb, b[0]);
    let ja = choose|j: int| 0 <= j < a.len() && a[j] == b[0];
    assert(a[0].seq >= a[ja].seq);
    assert(ka == kb);
    assert(a[0] == a.filter(with_seq(ka))[0]);
    assert(b[0] == b.filter(with_seq(ka))[0]);
    assert(a[0] == b[0]);
    assert forall|v: i64| #[trigger] a1.filter(with_seq(v)) == b1.filter(with_seq(v)) by {
        let fa = a.filter(with_seq(v));
        if a[0].seq == v {
            assert(a1.filter(with_seq(v)) =~= fa.drop_first());
            assert(b1.filter(with_seq(v)) =~= b.filter(with_seq(v)).drop_first());
        } else {
            assert(a1.filter(with_seq(v)) =~= fa);
            assert(b1.filter(with_seq(v)) =~= b.filter(with_seq(v)));
        }
    }
    assert(is_newest_first(a1)) by {
        assert forall|i: int, j: int| 0 <= i < j < a1.len() implies a1[i].seq >= a1[j].seq by {
            assert(a1[i] == a[i + 1] && a1[j] == a[j + 1]);
        }
    }
    assert(is_newest_first(b1)) by {
        assert forall|i: int, j: int| 0 <= i < j < b1.len() implies b1[i].seq >= b1[j].seq by {
            assert(b1[i] == b[i + 1] && b1[j] == b[j + 1]);
        }
    }
    lemma_same_order(a1, b1);
}

/// Law: the most-recent-first order of a stream is fully determined: any two
/// orderings that meet `is_newest_first_of` for the same entries are equal.
pub proof fn law_newest_first_is_determined(
    a: Seq<LogEntryView>,
    b: Seq<LogEntryView>,
    input: Seq<LogEntryView>,
)
    requires
        is_newest_first_of(a, input),
        is_newest_first_of(b, input),
    ensures
        a == b,
{
    lemma_same_order(a, b);
}

/// No two entries of `s` carry the same sequence number.
spec fn distinct_seqs(s: Seq<LogEntryView>) -> bool {
    forall|i: int, j: int| 0 <= i < s.len() && 0 <= j < s.len() && i != j ==> s[i].seq != s[j].seq
}

/// With distinct sequence numbers, the entries carrying `v` are the one entry
/// that carries it, or none.
proof fn lemma_filter_distinct(s: Seq<LogEntryView>, v: i64)
    requires
        distinct_seqs(s),
    ensures
        (forall|i: int| 0 <= i < s.len() ==> s[i].seq != v) ==> s.filter(with_seq(v)) == Seq::<
            LogEntryView,
        >::empty(),
        forall|i: int| 0 <= i < s.len() && s[i].seq == v ==> s.filter(with_seq(v)) == seq![s[i]],
    decreases s.len(),
{
    reveal(Seq::filter);
    if s.len() == 0 {
        assert(s.filter(with_seq(v)) =~= Seq::<LogEntryView>::empty());
        return;
    }
    let rest = s.drop_last();
    assert(distinct_seqs(rest)) by {
        assert forall|i: int, j: int|
            0 <= i < rest.len() && 0 <= j < rest.len() && i != j implies rest[i].seq
            != rest[j].seq by {
            assert(rest[i] == s[i] && rest[j] == s[j]);
        }
    }
    lemma_filter_distinct(rest, v);
    if s.last().seq == v {
        assert forall|i: int| 0 <= i < rest.len() implies rest[i].seq != v by {
            assert(rest[i] == s[i]);
            assert(s[i].seq != s[s.len() - 1].seq);
        }
        assert(s.filter(with_seq(v)) =~= seq![s.last()]);
        assert forall|i: int| 0 <= i < s.len() && s[i].seq == v implies s.filter(with_seq(v))
            == seq![s[i]] by {
            if i != s.len() - 1 {
                assert(s[i].seq != s[s.len() - 1].seq);
            }
        }
    } else {
        assert(s.filter(with_seq(v)) == rest.filter(with_seq(v)));
        assert forall|i: int| 0 <= i < s.len() && s[i].seq == v implies s.filter(with_seq(v))
            == seq![s[i]] by {
            assert(i < s.len() - 1);
            assert(rest[i] == s[i]);
        }
        if forall|i: int| 0 <= i < s.len() ==> s[i].seq != v {
            assert forall|i: int| 0 <= i < rest.len() implies rest[i].seq != v by {
                assert(rest[i] == s[i]);
            }
        }
    }
}

/// Law: a stream whose sequence numbers strictly increase (every stream built
/// by appends alone) reads most recent first exactly as its entries reversed.
pub proof fn law_increasing_stream_reads_reversed(s: Seq<LogEntryView>, out: Seq<LogEntryView>)
    requires
        strictly_increasing(s),
        is_newest_first_of(out, s),
    ensures
        out == s.reverse(),
{
    let r = s.reverse();
    let n = s.len();
    assert(distinct_seqs(s)) by {
        assert forall|i: int, j: int| 0 <= i < n && 0 <= j < n && i != j implies s[i].seq
            != s[j].seq by {
            if i < j {
                assert(s[i].seq < s[j].seq);
            } else {
                assert(s[j].seq < s[i].seq);
            }
        }
    }
    assert(forall|i: int| 0 <= i < n ==> #[trigger] r[i] == s[n - 1 - i]);
    assert(distinct_seqs(r)) by {
        assert forall|i: int, j: int| 0 <= i < n && 0 <= j < n && i != j implies r[i].seq
            != r[j].seq by {
            assert(r[i] == s[n - 1 - i] && r[j] == s[n - 1 - j]);
        }
    }
    assert(is_newest_first(r)) by {
        assert forall|i: int, j: int| 0 <= i < j < r.len() implies r[i].seq >= r[j].seq by {
            assert(r[i] == s[n - 1 - i] && r[j] == s[n - 1 - j]);
        }
    }
    assert forall|v: i64| #[trigger] r.filter(with_seq(v)) == s.filter(with_seq(v)) by {
        lemma_filter_distinct(s, v);
        lemma_filter_distinct(r, v);
        if exists|i: int| 0 <= i < n && s[i].seq == v {
            let i = choose|i: int| 0 <= i < n && s[i].seq == v;
            assert(r[n - 1 - i] == s[i]);
        } else {
            assert forall|i: int| 0 <= i < n implies r[i].seq != v by {
                assert(r[i] == s[n - 1 - i]);
            }
        }
    }
    lemma_same_order(out, r);
}

impl Stream {
    /// Rebuild a stream from the store (entries already sorted by `seq`).
    pub fn load(name: &str, entries: Vec<LogEntry>) -> (r: Self)
        ensures
            r@ == (StreamView { name: name@, entries: entries_view(entries@) }),
    {
        Stream { name: String::from_str(name), entries }
    }

    /// Entries, most recent first (a stable sort on `seq`, largest first).
    pub fn most_recent_first(&self) -> (r: Vec<LogEntry>)
        ensures
            is_newest_first_of(entries_view(r@), self@.entries),
    {
        let ghost input = entries_view(self.entries@);
        let mut out: Vec<LogEntry> = Vec::new();
        let n = self.entries.len();
        let mut i: usize = 0;
        assert(entries_view(out@) =~= input.take(0));
        while i < n
            invariant
                n == self.entries@.len(),
                input == entries_view(self.entries@),
                i <= n,
                is_newest_first_of(entries_view(out@), input.take(i as int)),
            decreases n - i,
        {
            let e = self.entries[i].clone();
            let ghost before = entries_view(out@);
            let mut k: usize = 0;
            while k < out.len() && out[k].seq >= e.seq
                invariant
                    k <= out@.len(),
                    before == entries_view(out@),
                    forall|j: int| 0 <= j < k ==> before[j].seq >= e.seq,
                decreases out@.len() - k,
            {
                k = k + 1;
            }
            proof {
                assert forall|j: int| k <= j < before.len() implies before[j].seq < e.seq by {
                    assert(before[k as int].seq < e.seq);
                }
                assert(input.take(i + 1) =~= input.take(i as int).push(e@));
                lemma_insert_in_place(before, k as int, e@, input.take(i as int));
            }
            out.insert(k, e);
            assert(entries_view(out@) =~= before.insert(k as int, e@));
            i = i + 1;
        }
        assert(input.take(n as int) =~= input);
        out
    }

    /// Read invariant: querying an empty stream is a domain error.
    pub fn require_non_empty(&self) -> (r: Result<&Self, DomainError>)
        ensures
            r is Ok <==> self@.entries.len() > 0,
            r matches Ok(s) ==> s == self,
            r matches Err(e) ==> e@ == (DomainErrorView::EmptyStream { stream: self@.name }),
    {
        if self.entries.len() == 0 {
            return Err(DomainError::EmptyStream { stream: self.name.clone() });
        }
        Ok(self)
    }
}

} // verus!
