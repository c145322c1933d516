//! What holds of the service's round trips, proved over the call machine
//! and the model of the store.
use crate::call::{at, fresh, transition, ActionView, CacheError, CallView, EventView, Stage};
use crate::command::{CommandView, Operation};
use crate::reply::{missing, present, ReplyView, ResponseView};
use crate::store::{
    after, enumerates, field_items, field_value_items, fields_at, holds_text, may_reply, rejects,
    text_at, texts_at, fields_in, value_items, write_pairs, write_texts, Store,
};
use vstd::prelude::*;

verus! {

/// How a call ends when it gets a connection and the store, holding `s`,
/// rejects its command or carries it out and answers `r`.
pub open spec fn served(s: Store, c: CallView, r: ReplyView) -> ActionView {
    let sent = transition(c, EventView::Acquired).0;
    if rejects(s, c.command) {
        transition(sent, EventView::StoreFailed).1
    } else {
        transition(sent, EventView::Replied(r)).1
    }
}

/// The actions a call asks for, one per event, as the events come.
pub open spec fn run(c: CallView, events: Seq<EventView>) -> Seq<ActionView>
    decreases events.len(),
{
    if events.len() == 0 {
        Seq::empty()
    } else {
        let (next, a) = transition(c, events[0]);
        seq![a] + run(next, events.drop_first())
    }
}

/// How many of the actions end a call.
pub open spec fn outcomes(actions: Seq<ActionView>) -> nat
    decreases actions.len(),
{
    if actions.len() == 0 {
        0
    } else {
        (if actions[0].is_outcome() {
            1nat
        } else {
            0nat
        }) + outcomes(actions.drop_first())
    }
}

/// `n` actions that do nothing.
pub open spec fn waits(n: nat) -> Seq<ActionView> {
    Seq::new(n, |i: int| ActionView::Wait)
}

/// The keys of a batch, in order.
pub open spec fn keys_of(pairs: Seq<(Seq<char>, Seq<char>)>) -> Seq<Seq<char>> {
    pairs.map_values(|p: (Seq<char>, Seq<char>)| p.0)
}

/// The values of a batch, in order.
pub open spec fn values_of(pairs: Seq<(Seq<char>, Seq<char>)>) -> Seq<Seq<char>> {
    pairs.map_values(|p: (Seq<char>, Seq<char>)| p.1)
}

/// No key comes twice in the batch.
pub open spec fn distinct_keys(pairs: Seq<(Seq<char>, Seq<char>)>) -> bool {
    forall|i: int, j: int| 0 <= i < j < pairs.len() ==> pairs[i].0 != pairs[j].0
}

proof fn lemma_finished_waits(c: CallView, events: Seq<EventView>)
    requires
        c.stage == Stage::Finished,
    ensures
        run(c, events) == waits(events.len()),
    decreases events.len(),
{
    if events.len() > 0 {
        lemma_finished_waits(c, events.drop_first());
        assert(run(c, events) =~= waits(events.len()));
    } else {
        assert(run(c, events) =~= waits(0));
    }
}

proof fn lemma_waits_no_outcome(n: nat)
    ensures
        outcomes(waits(n)) == 0,
    decreases n,
{
    if n > 0 {
        assert(waits(n).drop_first() =~= waits((n - 1) as nat));
        lemma_waits_no_outcome((n - 1) as nat);
    }
}

proof fn lemma_at_most_one_outcome(c: CallView, events: Seq<EventView>)
    ensures
        outcomes(run(c, events)) <= 1,
        c.stage == Stage::Finished ==> outcomes(run(c, events)) == 0,
    decreases events.len(),
{
    if events.len() > 0 {
        let (next, a) = transition(c, events[0]);
        let rest = events.drop_first();
        lemma_at_most_one_outcome(next, rest);
        let acts = run(c, events);
        assert(acts[0] == a);
        assert(acts.drop_first() =~= run(next, rest));
        if a.is_outcome() {
            assert(next.stage == Stage::Finished);
        }
    }
}

/// A call ends at most once: whatever events come, it gives at most one
/// response or error, never both, and asks for nothing once it has ended.
pub proof fn single_outcome(c: CallView, events: Seq<EventView>)
    ensures
        outcomes(run(c, events)) <= 1,
        c.stage == Stage::Finished ==> run(c, events) == waits(events.len()),
{
    lemma_at_most_one_outcome(c, events);
    if c.stage == Stage::Finished {
        lemma_finished_waits(c, events);
    }
}

/// A failed acquisition ends the call at once with the connection error:
/// nothing is sent to the store, and no later event brings another outcome.
pub proof fn failed_acquisition_ends_call(
    op: Operation,
    command: CommandView,
    later: Seq<EventView>,
)
    ensures
        run(fresh(op, command), seq![EventView::AcquireFailed] + later) == seq![
            ActionView::Fail(CacheError::ConnectFailed),
        ] + waits(later.len()),
{
    let c = fresh(op, command);
    let events = seq![EventView::AcquireFailed] + later;
    assert(events.drop_first() =~= later);
    lemma_finished_waits(at(c, Stage::Finished), later);
    assert(run(c, events) =~= seq![ActionView::Fail(CacheError::ConnectFailed)] + waits(
        later.len(),
    ));
}

/// When the store fails a batched write, the whole batch is reported as
/// failed: the call ends with the command error naming the operation, and no
/// acknowledgement is given for any part of the batch, then or later. A
/// batch the store rejects ends the same way.
pub proof fn failed_batch_write(s: Store, pairs: Seq<(Seq<char>, Seq<char>)>, later: Seq<EventView>, r: ReplyView)
    ensures
        run(
            fresh(Operation::StrSet, CommandView::MSet(pairs)),
            seq![EventView::Acquired, EventView::StoreFailed] + later,
        ) == seq![ActionView::Send, ActionView::Fail(CacheError::CommandFailed(Operation::StrSet))]
            + waits(later.len()),
        rejects(s, CommandView::MSet(pairs)) ==> served(
            s,
            fresh(Operation::StrSet, CommandView::MSet(pairs)),
            r,
        ) == ActionView::Fail(CacheError::CommandFailed(Operation::StrSet)),
{
    let c = fresh(Operation::StrSet, CommandView::MSet(pairs));
    let events = seq![EventView::Acquired, EventView::StoreFailed] + later;
    let sent = at(c, Stage::Awaiting);
    assert(events.drop_first() =~= seq![EventView::StoreFailed] + later);
    assert((seq![EventView::StoreFailed] + later).drop_first() =~= later);
    lemma_finished_waits(at(c, Stage::Finished), later);
    assert(run(sent, seq![EventView::StoreFailed] + later) =~= seq![
        ActionView::Fail(CacheError::CommandFailed(Operation::StrSet)),
    ] + waits(later.len()));
    assert(run(c, events) =~= seq![
        ActionView::Send,
        ActionView::Fail(CacheError::CommandFailed(Operation::StrSet)),
    ] + waits(later.len()));
}

proof fn lemma_present_all(vs: Seq<Seq<char>>)
    ensures
        present(vs.map_values(|v: Seq<char>| Some(v))) == vs,
    decreases vs.len(),
{
    let items = vs.map_values(|v: Seq<char>| Some(v));
    if vs.len() > 0 {
        lemma_present_all(vs.drop_last());
        assert(items.drop_last() =~= vs.drop_last().map_values(|v: Seq<char>| Some(v)));
        assert(vs.drop_last().push(vs.last()) =~= vs);
    } else {
        assert(present(items) =~= vs);
    }
}

proof fn lemma_present_count(items: Seq<Option<Seq<char>>>)
    ensures
        present(items).len() + missing(items) == items.len(),
    decreases items.len(),
{
    if items.len() > 0 {
        lemma_present_count(items.drop_last());
    }
}

proof fn lemma_written_text(s: Store, pairs: Seq<(Seq<char>, Seq<char>)>, i: int)
    requires
        distinct_keys(pairs),
        0 <= i < pairs.len(),
    ensures
        text_at(write_texts(s, pairs), pairs[i].0) == Some(pairs[i].1),
    decreases pairs.len(),
{
    if i < pairs.len() - 1 {
        let shorter = pairs.drop_last();
        assert(distinct_keys(shorter)) by {
            assert forall|a: int, b: int| 0 <= a < b < shorter.len() implies shorter[a].0
                != shorter[b].0 by {
                assert(shorter[a] == pairs[a] && shorter[b] == pairs[b]);
            }
        }
        lemma_written_text(s, shorter, i);
        assert(shorter[i] == pairs[i]);
        assert(pairs[i].0 != pairs.last().0);
    }
}

/// A batch written with Set comes back whole from a Get of its keys: every
/// value, in the order of the keys.
pub proof fn set_then_get_batch(
    s: Store,
    pairs: Seq<(Seq<char>, Seq<char>)>,
    ack: ReplyView,
    r: ReplyView,
)
    requires
        pairs.len() >= 1,
        distinct_keys(pairs),
        may_reply(s, CommandView::MSet(pairs), ack),
        may_reply(after(s, CommandView::MSet(pairs)), CommandView::MGet(keys_of(pairs)), r),
    ensures
        served(s, fresh(Operation::StrSet, CommandView::MSet(pairs)), ack) == ActionView::Respond(
            ResponseView::Effect(true),
        ),
        served(
            after(s, CommandView::MSet(pairs)),
            fresh(Operation::StrGet, CommandView::MGet(keys_of(pairs))),
            r,
        ) == ActionView::Respond(ResponseView::Values(values_of(pairs))),
{
    let w = after(s, CommandView::MSet(pairs));
    let keys = keys_of(pairs);
    let vals = values_of(pairs);
    assert(texts_at(w, keys) =~= vals.map_values(|v: Seq<char>| Some(v))) by {
        assert forall|i: int| 0 <= i < keys.len() implies #[trigger] texts_at(w, keys)[i] == Some(
            vals[i],
        ) by {
            lemma_written_text(s, pairs, i);
        }
    }
    lemma_present_all(vals);
}

/// A value written with Set under a key is what a Get of that key answers.
pub proof fn set_then_get(s: Store, k: Seq<char>, v: Seq<char>, ack: ReplyView, r: ReplyView)
    requires
        may_reply(s, CommandView::MSet(seq![(k, v)]), ack),
        may_reply(after(s, CommandView::MSet(seq![(k, v)])), CommandView::MGet(seq![k]), r),
    ensures
        served(s, fresh(Operation::StrSet, CommandView::MSet(seq![(k, v)])), ack)
            == ActionView::Respond(ResponseView::Effect(true)),
        served(
            after(s, CommandView::MSet(seq![(k, v)])),
            fresh(Operation::StrGet, CommandView::MGet(seq![k])),
            r,
        ) == ActionView::Respond(ResponseView::Values(seq![v])),
{
    let pairs = seq![(k, v)];
    assert(keys_of(pairs) =~= seq![k]);
    assert(values_of(pairs) =~= seq![v]);
    set_then_get_batch(s, pairs, ack, r);
}

/// A Get of N keys of which M hold no string answers N - M values, those of
/// the keys that hold one, in their order: a missing key contributes nothing,
/// so a value's place no longer tells which key it belongs to.
pub proof fn get_drops_missing(s: Store, keys: Seq<Seq<char>>, r: ReplyView)
    requires
        keys.len() >= 1,
        may_reply(s, CommandView::MGet(keys), r),
    ensures
        served(s, fresh(Operation::StrGet, CommandView::MGet(keys)), r) == ActionView::Respond(
            ResponseView::Values(present(texts_at(s, keys))),
        ),
        present(texts_at(s, keys)).len() == keys.len() - missing(texts_at(s, keys)),
{
    lemma_present_count(texts_at(s, keys));
}

proof fn lemma_enumerates_empty(ks: Seq<Seq<char>>, m: Map<Seq<char>, Seq<char>>)
    requires
        enumerates(ks, m),
        m.dom() =~= Set::empty(),
    ensures
        ks.len() == 0,
{
    if ks.len() > 0 {
        assert(ks.contains(ks[0]));
        assert(m.contains_key(ks[0]));
    }
}

/// A read of the names, the values, or the fields and values of a hash
/// that has no fields answers an empty collection, not an error.
pub proof fn empty_hash_reads(
    s: Store,
    h: Seq<char>,
    rk: ReplyView,
    rv: ReplyView,
    ra: ReplyView,
)
    requires
        !holds_text(s, h),
        fields_at(s, h).dom() =~= Set::empty(),
        may_reply(s, CommandView::HKeys(h), rk),
        may_reply(s, CommandView::HVals(h), rv),
        may_reply(s, CommandView::HGetAll(h), ra),
    ensures
        served(s, fresh(Operation::HashGetAll, CommandView::HGetAll(h)), ra)
            == ActionView::Respond(ResponseView::Values(Seq::empty())),
        served(s, fresh(Operation::HashKeys, CommandView::HKeys(h)), rk) == ActionView::Respond(
            ResponseView::Keys(Seq::empty()),
        ),
        served(s, fresh(Operation::HashValues, CommandView::HVals(h)), rv)
            == ActionView::Respond(ResponseView::Values(Seq::empty())),
{
    let m = fields_at(s, h);
    let ks = choose|ks: Seq<Seq<char>>|
        enumerates(ks, m) && rk == ReplyView::Items(#[trigger] field_items(ks));
    lemma_enumerates_empty(ks, m);
    assert(field_items(ks) =~= Seq::empty());
    let vs = choose|vs: Seq<Seq<char>>|
        enumerates(vs, m) && rv == ReplyView::Items(#[trigger] value_items(vs, m));
    lemma_enumerates_empty(vs, m);
    assert(value_items(vs, m) =~= Seq::empty());
    let fs = choose|fs: Seq<Seq<char>>|
        enumerates(fs, m) && ra == ReplyView::Items(#[trigger] field_value_items(fs, m));
    lemma_enumerates_empty(fs, m);
    assert(field_value_items(fs, m) =~= Seq::empty());
}

proof fn lemma_two_fields(ks: Seq<Seq<char>>, f1: Seq<char>, f2: Seq<char>, m: Map<Seq<char>, Seq<char>>)
    requires
        f1 != f2,
        enumerates(ks, m),
        forall|f: Seq<char>| m.contains_key(f) <==> (f == f1 || f == f2),
    ensures
        ks.len() == 2,
        (ks[0] == f1 && ks[1] == f2) || (ks[0] == f2 && ks[1] == f1),
{
    assert(m.contains_key(f1) && m.contains_key(f2));
    assert(ks.contains(f1) && ks.contains(f2));
    let i = choose|i: int| 0 <= i < ks.len() && ks[i] == f1;
    let j = choose|j: int| 0 <= j < ks.len() && ks[j] == f2;
    assert(i != j);
    if ks.len() > 2 {
        assert(ks.contains(ks[0]) && ks.contains(ks[1]) && ks.contains(ks[2]));
        assert(m.contains_key(ks[0]) && m.contains_key(ks[1]) && m.contains_key(ks[2]));
        assert(false);
    }
}

/// Two distinct fields written into a hash with HashSet are exactly what a
/// HashGetAll of it then answers: each field followed by its value, the two
/// pairs in an order of the store's choosing, and nothing else. The hash may
/// hold no other field before, and its key no string.
pub proof fn hash_set_then_get_all(
    s: Store,
    h: Seq<char>,
    f1: Seq<char>,
    v1: Seq<char>,
    f2: Seq<char>,
    v2: Seq<char>,
    ack: ReplyView,
    r: ReplyView,
)
    requires
        f1 != f2,
        !holds_text(s, h),
        forall|f: Seq<char>| fields_at(s, h).contains_key(f) ==> f == f1 || f == f2,
        may_reply(s, CommandView::HMSet(h, seq![(f1, v1), (f2, v2)]), ack),
        may_reply(after(s, CommandView::HMSet(h, seq![(f1, v1), (f2, v2)])), CommandView::HGetAll(h), r),
    ensures
        served(s, fresh(Operation::HashSet, CommandView::HMSet(h, seq![(f1, v1), (f2, v2)])), ack)
            == ActionView::Respond(ResponseView::Effect(true)),
        served(
            after(s, CommandView::HMSet(h, seq![(f1, v1), (f2, v2)])),
            fresh(Operation::HashGetAll, CommandView::HGetAll(h)),
            r,
        ) == ActionView::Respond(ResponseView::Values(seq![f1, v1, f2, v2]))
            || served(
            after(s, CommandView::HMSet(h, seq![(f1, v1), (f2, v2)])),
            fresh(Operation::HashGetAll, CommandView::HGetAll(h)),
            r,
        ) == ActionView::Respond(ResponseView::Values(seq![f2, v2, f1, v1])),
{
    let pairs = seq![(f1, v1), (f2, v2)];
    let w = after(s, CommandView::HMSet(h, pairs));
    let m = write_pairs(fields_at(s, h), pairs);
    assert(pairs.drop_last().drop_last() =~= Seq::<(Seq<char>, Seq<char>)>::empty());
    assert(pairs.drop_last() =~= seq![(f1, v1)]);
    let m0 = fields_at(s, h);
    assert(write_pairs(m0, pairs.drop_last().drop_last()) == m0);
    assert(write_pairs(m0, pairs.drop_last()) == m0.insert(f1, v1));
    assert(m == m0.insert(f1, v1).insert(f2, v2));
    assert(fields_at(w, h) == m);
    assert(m[f1] == v1 && m[f2] == v2);
    assert forall|f: Seq<char>| m.contains_key(f) <==> (f == f1 || f == f2) by {}
    let ks = choose|ks: Seq<Seq<char>>|
        enumerates(ks, m) && r == ReplyView::Items(#[trigger] field_value_items(ks, m));
    lemma_two_fields(ks, f1, f2, m);
    assert(ks.drop_last().drop_last() =~= Seq::<Seq<char>>::empty());
    assert(ks.drop_last() =~= seq![ks[0]]);
    let items = field_value_items(ks, m);
    assert(field_value_items(ks.drop_last().drop_last(), m) =~= Seq::empty());
    assert(field_value_items(ks.drop_last(), m) =~= seq![Some(ks[0]), Some(m[ks[0]])]);
    assert(items =~= seq![Some(ks[0]), Some(m[ks[0]]), Some(ks[1]), Some(m[ks[1]])]);
    let flat = seq![ks[0], m[ks[0]], ks[1], m[ks[1]]];
    assert(items =~= flat.map_values(|v: Seq<char>| Some(v)));
    lemma_present_all(flat);
}

/// A HashGet of N fields of which M are not in the hash answers N - M
/// values, those of the fields that are there, in their order.
pub proof fn hash_get_drops_missing(s: Store, h: Seq<char>, fields: Seq<Seq<char>>, r: ReplyView)
    requires
        fields.len() >= 1,
        !holds_text(s, h),
        may_reply(s, CommandView::HMGet(h, fields), r),
    ensures
        served(s, fresh(Operation::HashGet, CommandView::HMGet(h, fields)), r)
            == ActionView::Respond(ResponseView::Values(present(fields_in(s, h, fields)))),
        present(fields_in(s, h, fields)).len() == fields.len() - missing(fields_in(s, h, fields)),
{
    lemma_present_count(fields_in(s, h, fields));
}

/// The operation that issues a command of this kind.
pub open spec fn issuer(c: CommandView) -> Operation {
    match c {
        CommandView::MSet(_) => Operation::StrSet,
        CommandView::MGet(_) => Operation::StrGet,
        CommandView::HMSet(_, _) => Operation::HashSet,
        CommandView::HMGet(_, _) => Operation::HashGet,
        CommandView::HGetAll(_) => Operation::HashGetAll,
        CommandView::HKeys(_) => Operation::HashKeys,
        CommandView::HVals(_) => Operation::HashValues,
    }
}

/// A call whose command the store carries out ends with a response of the
/// operation's kind, an acknowledgement for a write and a collection for a
/// read; one whose command the store rejects ends with the command error.
pub proof fn served_outcome(s: Store, c: CommandView, r: ReplyView)
    requires
        may_reply(s, c, r),
    ensures
        !rejects(s, c) && c.acknowledged() ==> served(s, fresh(issuer(c), c), r)
            == ActionView::Respond(ResponseView::Effect(true)),
        !rejects(s, c) && !c.acknowledged() ==> (served(s, fresh(issuer(c), c), r) matches ActionView::Respond(resp) && (
            if issuer(c) == Operation::HashKeys { resp is Keys } else { resp is Values })),
        rejects(s, c) ==> served(s, fresh(issuer(c), c), r) == ActionView::Fail(
            CacheError::CommandFailed(issuer(c)),
        ),
{
    match c {
        CommandView::HGetAll(h) => {
            let ks = choose|ks: Seq<Seq<char>>|
                enumerates(ks, fields_at(s, h)) && r == ReplyView::Items(
                    #[trigger] field_value_items(ks, fields_at(s, h)),
                );
        },
        CommandView::HKeys(h) => {
            let ks = choose|ks: Seq<Seq<char>>|
                enumerates(ks, fields_at(s, h)) && r == ReplyView::Items(#[trigger] field_items(ks));
        },
        CommandView::HVals(h) => {
            let ks = choose|ks: Seq<Seq<char>>|
                enumerates(ks, fields_at(s, h)) && r == ReplyView::Items(
                    #[trigger] value_items(ks, fields_at(s, h)),
                );
        },
        _ => {},
    }
}

} // verus!
