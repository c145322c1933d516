//! What the store answers, and how an answer becomes the caller's response.
use crate::command::Operation;
use crate::messages::{Effect, Key, Keys, Value, Values};
use vstd::prelude::*;

verus! {

/// A successful answer of the store, as the connection decoded it.
#[derive(Debug)]
pub enum StoreReply {
    /// A write was carried out.
    Ack,
    /// One entry per item the store listed; `None` where it had nothing.
    Items(Vec<Option<String>>),
}

pub enum ReplyView {
    Ack,
    Items(Seq<Option<Seq<char>>>),
}

pub open spec fn item_view(o: Option<String>) -> Option<Seq<char>> {
    match o {
        Some(s) => Some(s@),
        None => None,
    }
}

pub open spec fn items_view(items: Seq<Option<String>>) -> Seq<Option<Seq<char>>> {
    items.map_values(|o: Option<String>| item_view(o))
}

impl View for StoreReply {
    type V = ReplyView;

    open spec fn view(&self) -> ReplyView {
        match self {
            StoreReply::Ack => ReplyView::Ack,
            StoreReply::Items(items) => ReplyView::Items(items_view(items@)),
        }
    }
}

/// The response handed back to the caller.
#[derive(Debug)]
pub enum Response {
    Effect(Effect),
    Values(Values),
    Keys(Keys),
}

pub enum ResponseView {
    Effect(bool),
    Values(Seq<Seq<char>>),
    Keys(Seq<Seq<char>>),
}

impl View for Response {
    type V = ResponseView;

    open spec fn view(&self) -> ResponseView {
        match self {
            Response::Effect(e) => ResponseView::Effect(e.effect),
            Response::Values(vs) => ResponseView::Values(vs@),
            Response::Keys(ks) => ResponseView::Keys(ks@),
        }
    }
}

/// The items that are there, in their order: a missing item contributes
/// nothing, so the result may be shorter than the reply.
pub open spec fn present(items: Seq<Option<Seq<char>>>) -> Seq<Seq<char>>
    decreases items.len(),
{
    if items.len() == 0 {
        Seq::empty()
    } else {
        let rest = present(items.drop_last());
        match items.last() {
            Some(v) => rest.push(v),
            None => rest,
        }
    }
}

/// The number of missing items in a reply.
pub open spec fn missing(items: Seq<Option<Seq<char>>>) -> nat
    decreases items.len(),
{
    if items.len() == 0 {
        0
    } else {
        missing(items.drop_last()) + if items.last() is None {
            1nat
        } else {
            0nat
        }
    }
}

/// The response to an operation whose command the store answered with `r`;
/// `None` where the answer does not have the shape the operation expects.
pub open spec fn response_for(op: Operation, r: ReplyView) -> Option<ResponseView> {
    match r {
        ReplyView::Ack => if op.writes() {
            Some(ResponseView::Effect(true))
        } else {
            None
        },
        ReplyView::Items(items) => if op.writes() {
            None
        } else if op == Operation::HashKeys {
            Some(ResponseView::Keys(present(items)))
        } else {
            Some(ResponseView::Values(present(items)))
        },
    }
}

proof fn lemma_present_step(items: Seq<Option<Seq<char>>>, i: int)
    requires
        0 <= i < items.len(),
    ensures
        present(items.take(i + 1)) == match items[i] {
            Some(v) => present(items.take(i)).push(v),
            None => present(items.take(i)),
        },
{
    assert(items.take(i + 1).drop_last() =~= items.take(i));
}

/// The values that the reply holds, missing ones dropped.
pub fn present_values(items: Vec<Option<String>>) -> (r: Values)
    ensures
        r@ == present(items_view(items@)),
{
    let ghost all = items_view(items@);
    let mut values: Vec<Value> = Vec::new();
    let n = items.len();
    let mut i: usize = 0;
    while i < n
        invariant
            n == items.len(),
            i <= n,
            all == items_view(items@),
            values@.map_values(|v: Value| v@) == present(all.take(i as int)),
        decreases n - i,
    {
        proof {
            lemma_present_step(all, i as int);
        }
        match &items[i] {
            Some(s) => {
                let ghost before = values@;
                values.push(Value { value: s.clone() });
                assert(values@.map_values(|v: Value| v@) =~= before.map_values(|v: Value| v@).push(
                    s@,
                ));
            },
            None => {},
        }
        i = i + 1;
    }
    assert(all.take(n as int) =~= all);
    Values { values }
}

/// The keys that the reply holds, missing ones dropped.
pub fn present_keys(items: Vec<Option<String>>) -> (r: Keys)
    ensures
        r@ == present(items_view(items@)),
{
    let ghost all = items_view(items@);
    let mut keys: Vec<Key> = Vec::new();
    let n = items.len();
    let mut i: usize = 0;
    while i < n
        invariant
            n == items.len(),
            i <= n,
            all == items_view(items@),
            keys@.map_values(|k: Key| k@) == present(all.take(i as int)),
        decreases n - i,
    {
        proof {
            lemma_present_step(all, i as int);
        }
        match &items[i] {
            Some(s) => {
                let ghost before = keys@;
                keys.push(Key { key: s.clone() });
                assert(keys@.map_values(|k: Key| k@) =~= before.map_values(|k: Key| k@).push(s@));
            },
            None => {},
        }
        i = i + 1;
    }
    assert(all.take(n as int) =~= all);
    Keys { keys }
}

/// Turns the store's answer into the response that the operation owes.
pub fn respond(op: Operation, reply: StoreReply) -> (r: Option<Response>)
    ensures
        match r {
            Some(resp) => response_for(op, reply@) == Some(resp@),
            None => response_for(op, reply@) is None,
        },
{
    let writes = match op {
        Operation::StrSet | Operation::HashSet => true,
        _ => false,
    };
    match reply {
        StoreReply::Ack => if writes {
            Some(Response::Effect(Effect { effect: true }))
        } else {
            None
        },
        StoreReply::Items(items) => if writes {
            None
        } else if op == Operation::HashKeys {
            Some(Response::Keys(present_keys(items)))
        } else {
            Some(Response::Values(present_values(items)))
        },
    }
}

} // verus!
