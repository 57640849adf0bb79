//! The library's laws: what holds of every schedule of concurrent calls,
//! every batch of records, and every cache state — stated over the same
//! models the contracts use, and proved.

use vstd::prelude::*;

use crate::cache::{cache_after, distinct_names};
use crate::exporter::admissible_seq;
use crate::span::{admissible, sat_add64, WasmSpan};

verus! {

/// One observation a wrapped call makes against the correlation store:
/// its entry, recorded at time `at`, or its exit after a measured
/// duration. A schedule of these events models any interleaving of
/// concurrent wrapped calls.
pub enum CallEvent {
    Enter { id: u128, at: u64 },
    Exit { id: u128, dur: u64 },
}

/// What one event does to the pending map — exactly what `on_func_enter`
/// and `on_func_exit` do to it.
pub open spec fn step_pending(m: Map<u128, u64>, e: CallEvent) -> Map<u128, u64> {
    match e {
        CallEvent::Enter { id, at } => m.insert(id, at),
        CallEvent::Exit { id, dur: _ } => m.remove(id),
    }
}

/// The pending map after a whole schedule has run.
pub open spec fn run_pending(m: Map<u128, u64>, tr: Seq<CallEvent>) -> Map<u128, u64>
    decreases tr.len(),
{
    if tr.len() == 0 {
        m
    } else {
        run_pending(step_pending(m, tr[0]), tr.drop_first())
    }
}

/// Whether an event belongs to the call `id`.
pub open spec fn mentions(e: CallEvent, id: u128) -> bool {
    match e {
        CallEvent::Enter { id: i, at: _ } => i == id,
        CallEvent::Exit { id: i, dur: _ } => i == id,
    }
}

/// Running a schedule piecewise: first its head part, then the rest.
pub proof fn lemma_run_append(m: Map<u128, u64>, a: Seq<CallEvent>, b: Seq<CallEvent>)
    ensures
        run_pending(m, a + b) == run_pending(run_pending(m, a), b),
    decreases a.len(),
{
    if a.len() == 0 {
        assert(a + b =~= b);
    } else {
        assert((a + b)[0] == a[0]);
        assert((a + b).drop_first() =~= a.drop_first() + b);
        lemma_run_append(step_pending(m, a[0]), a.drop_first(), b);
    }
}

/// Events of other calls leave a call's pending entry untouched.
pub proof fn lemma_start_preserved(m: Map<u128, u64>, tr: Seq<CallEvent>, id: u128)
    requires
        m.contains_key(id),
        forall|k: int| 0 <= k < tr.len() ==> !mentions(#[trigger] tr[k], id),
    ensures
        run_pending(m, tr).contains_key(id),
        run_pending(m, tr)[id] == m[id],
    decreases tr.len(),
{
    if tr.len() != 0 {
        let m1 = step_pending(m, tr[0]);
        assert(!mentions(tr[0], id));
        assert(m1.contains_key(id) && m1[id] == m[id]);
        assert(forall|k: int|
            0 <= k < tr.drop_first().len() ==> !mentions(#[trigger] tr.drop_first()[k], id));
        lemma_start_preserved(m1, tr.drop_first(), id);
    }
}

/// In every interleaving of concurrent wrapped calls, a call's reported
/// span is measured between its own entry and its own exit: when the exit
/// of call `id` is observed, the pending entry under `id` still holds the
/// time `t` its own entry wrote — no event of any other call can change it
/// — so the record runs from `t` to `t` plus the call's own measured
/// duration, and its reported duration equals that duration whenever the
/// end time does not saturate.
pub proof fn lemma_no_crosstalk(
    m: Map<u128, u64>,
    tr: Seq<CallEvent>,
    i: int,
    j: int,
    id: u128,
    t: u64,
    dur: u64,
)
    requires
        0 <= i < j < tr.len(),
        tr[i] == (CallEvent::Enter { id, at: t }),
        tr[j] == (CallEvent::Exit { id, dur }),
        forall|k: int| i < k < j ==> !mentions(#[trigger] tr[k], id),
    ensures
        run_pending(m, tr.take(j)).contains_key(id),
        run_pending(m, tr.take(j))[id] == t,
        t + dur <= u64::MAX ==> sat_add64(t, dur) - t == dur,
{
    let head = tr.take(i + 1);
    let middle = tr.subrange(i + 1, j);
    assert(tr.take(j) =~= head + middle);
    lemma_run_append(m, head, middle);
    let before = tr.take(i);
    assert(head =~= before + seq![tr[i]]);
    lemma_run_append(m, before, seq![tr[i]]);
    let mb = run_pending(m, before);
    let s1 = seq![tr[i]];
    assert(s1.drop_first() =~= Seq::<CallEvent>::empty());
    assert(run_pending(mb, s1) == run_pending(step_pending(mb, s1[0]), s1.drop_first()));
    let m_entered = run_pending(m, head);
    assert(m_entered == step_pending(mb, tr[i]));
    assert(m_entered.contains_key(id) && m_entered[id] == t);
    assert(forall|k: int| 0 <= k < middle.len() ==> !mentions(#[trigger] middle[k], id));
    lemma_start_preserved(m_entered, middle, id);
}

/// Once an exit has consumed its entry, a second exit under the same
/// identifier finds nothing pending: a correlation miss is a no-op and
/// fabricates no record.
pub proof fn lemma_exit_consumes_entry(p: Map<u128, u64>, id: u128)
    ensures
        !p.remove(id).contains_key(id),
{
}

/// Every record a drain admits is admissible: each span handed to the
/// transport belongs to a record whose end lies strictly after its start.
pub proof fn lemma_malformed_never_exported(records: Seq<WasmSpan>, j: int)
    requires
        0 <= j < admissible_seq(records).len(),
    ensures
        admissible(admissible_seq(records)[j]),
        admissible_seq(records)[j].end_time_ns > admissible_seq(records)[j].start_time_ns,
    decreases records.len(),
{
    if records.len() != 0 {
        if j < admissible_seq(records.drop_last()).len() {
            lemma_malformed_never_exported(records.drop_last(), j);
        }
    }
}

/// A batch of nothing but pathological records — end at or before start —
/// hands the transport nothing at all.
pub proof fn lemma_all_malformed_dropped(records: Seq<WasmSpan>)
    requires
        forall|i: int| 0 <= i < records.len() ==> !admissible(#[trigger] records[i]),
    ensures
        admissible_seq(records).len() == 0,
    decreases records.len(),
{
    if records.len() != 0 {
        assert(!admissible(records.last()));
        assert(forall|i: int|
            0 <= i < records.drop_last().len() ==> !admissible(#[trigger] records.drop_last()[i]));
        lemma_all_malformed_dropped(records.drop_last());
    }
}

/// Caching a function name is idempotent: after a name is cached, caching
/// it again changes nothing — the wrapper made on first lookup is the one
/// every later lookup returns, so a function is never wrapped twice.
pub proof fn lemma_no_double_wrap(c: Seq<Seq<char>>, name: Seq<char>)
    ensures
        cache_after(c, name).contains(name),
        cache_after(cache_after(c, name), name) == cache_after(c, name),
{
    if !c.contains(name) {
        assert(c.push(name)[c.len() as int] == name);
    }
}

/// In a well-formed cache a name holds exactly one slot: two lookups of
/// the same name return the same cached instance.
pub proof fn lemma_slot_unique(c: Seq<Seq<char>>, name: Seq<char>, i1: int, i2: int)
    requires
        distinct_names(c),
        0 <= i1 < c.len(),
        0 <= i2 < c.len(),
        c[i1] == name,
        c[i2] == name,
    ensures
        i1 == i2,
{
}

} // verus!
