//! The operations of the service and the store command that each one issues.
use crate::messages::{Key, KeyValues, Keys};
use vstd::prelude::*;

verus! {

/// An operation of the service, named in the errors it reports.
#[derive(Clone, Copy, Debug, PartialEq, Eq, Structural)]
pub enum Operation {
    StrSet,
    StrGet,
    HashSet,
    HashGet,
    HashGetAll,
    HashKeys,
    HashValues,
}

impl Operation {
    /// The name under which a failure of the operation is reported.
    pub open spec fn label(self) -> Seq<char> {
        match self {
            Operation::StrSet => "SET"@,
            Operation::StrGet => "GET"@,
            Operation::HashSet => "HSET"@,
            Operation::HashGet => "HGET"@,
            Operation::HashGetAll => "HGETALL"@,
            Operation::HashKeys => "HKEYS"@,
            Operation::HashValues => "HVALS"@,
        }
    }

    pub fn name(&self) -> (r: &'static str)
        ensures
            r@ == self.label(),
    {
        match self {
            Operation::StrSet => "SET",
            Operation::StrGet => "GET",
            Operation::HashSet => "HSET",
            Operation::HashGet => "HGET",
            Operation::HashGetAll => "HGETALL",
            Operation::HashKeys => "HKEYS",
            Operation::HashValues => "HVALS",
        }
    }

    /// Whether the operation writes (and answers with an acknowledgement).
    pub open spec fn writes(self) -> bool {
        self == Operation::StrSet || self == Operation::HashSet
    }
}

/// One batched round trip to the store.
#[derive(Debug)]
pub enum StoreCommand {
    /// Set every key of the batch to its value.
    MSet(KeyValues),
    /// Read the string value of each key.
    MGet(Keys),
    /// Set fields of one hash.
    HMSet(Key, KeyValues),
    /// Read fields of one hash.
    HMGet(Key, Keys),
    /// Read every field and value of one hash.
    HGetAll(Key),
    /// Read the field names of one hash.
    HKeys(Key),
    /// Read the values of one hash.
    HVals(Key),
}

/// A store command over plain sequences.
pub enum CommandView {
    MSet(Seq<(Seq<char>, Seq<char>)>),
    MGet(Seq<Seq<char>>),
    HMSet(Seq<char>, Seq<(Seq<char>, Seq<char>)>),
    HMGet(Seq<char>, Seq<Seq<char>>),
    HGetAll(Seq<char>),
    HKeys(Seq<char>),
    HVals(Seq<char>),
}

/// The views of a sequence of strings.
pub open spec fn strs(v: Seq<String>) -> Seq<Seq<char>> {
    v.map_values(|s: String| s@)
}

/// Each pair as its key followed by its value.
pub open spec fn flat_pairs(pairs: Seq<(Seq<char>, Seq<char>)>) -> Seq<Seq<char>>
    decreases pairs.len(),
{
    if pairs.len() == 0 {
        Seq::empty()
    } else {
        flat_pairs(pairs.drop_last()) + seq![pairs.last().0, pairs.last().1]
    }
}

impl CommandView {
    /// The arguments that follow the command's name on the wire.
    pub open spec fn arguments(self) -> Seq<Seq<char>> {
        match self {
            CommandView::MSet(pairs) => flat_pairs(pairs),
            CommandView::MGet(keys) => keys,
            CommandView::HMSet(h, pairs) => seq![h] + flat_pairs(pairs),
            CommandView::HMGet(h, fields) => seq![h] + fields,
            CommandView::HGetAll(h) => seq![h],
            CommandView::HKeys(h) => seq![h],
            CommandView::HVals(h) => seq![h],
        }
    }

    /// Whether the store answers the command with a bare acknowledgement
    /// rather than a list of items.
    pub open spec fn acknowledged(self) -> bool {
        self is MSet || self is HMSet
    }

    /// The command's name on the wire.
    pub open spec fn wire_name(self) -> Seq<char> {
        match self {
            CommandView::MSet(_) => "MSET"@,
            CommandView::MGet(_) => "MGET"@,
            CommandView::HMSet(_, _) => "HMSET"@,
            CommandView::HMGet(_, _) => "HMGET"@,
            CommandView::HGetAll(_) => "HGETALL"@,
            CommandView::HKeys(_) => "HKEYS"@,
            CommandView::HVals(_) => "HVALS"@,
        }
    }
}

impl View for StoreCommand {
    type V = CommandView;

    open spec fn view(&self) -> CommandView {
        match self {
            StoreCommand::MSet(kvs) => CommandView::MSet(kvs@),
            StoreCommand::MGet(ks) => CommandView::MGet(ks@),
            StoreCommand::HMSet(h, kvs) => CommandView::HMSet(h@, kvs@),
            StoreCommand::HMGet(h, ks) => CommandView::HMGet(h@, ks@),
            StoreCommand::HGetAll(h) => CommandView::HGetAll(h@),
            StoreCommand::HKeys(h) => CommandView::HKeys(h@),
            StoreCommand::HVals(h) => CommandView::HVals(h@),
        }
    }
}

/// Appends the key and the value of each pair, in order.
fn push_pairs(args: &mut Vec<String>, kvs: &KeyValues)
    ensures
        strs(final(args)@) == strs(old(args)@) + flat_pairs(kvs@),
{
    let ghost start = strs(args@);
    let ghost pairs = kvs@;
    let n = kvs.key_values.len();
    let mut i: usize = 0;
    while i < n
        invariant
            n == kvs.key_values.len(),
            i <= n,
            pairs == kvs@,
            strs(args@) == start + flat_pairs(pairs.take(i as int)),
        decreases n - i,
    {
        let kv = &kvs.key_values[i];
        assert(pairs.take(i + 1).drop_last() =~= pairs.take(i as int));
        assert(pairs[i as int] == kv@);
        assert(flat_pairs(pairs.take(i + 1)) == flat_pairs(pairs.take(i as int)) + seq![
            kv.key@,
            kv.value@,
        ]);
        let ghost before = args@;
        args.push(kv.key.clone());
        args.push(kv.value.clone());
        assert(strs(args@) =~= strs(before) + seq![kv.key@, kv.value@]);
        assert(strs(args@) =~= start + flat_pairs(pairs.take(i + 1)));
        i = i + 1;
    }
    assert(pairs.take(n as int) =~= pairs);
}

/// Appends each key, in order.
fn push_keys(args: &mut Vec<String>, ks: &Keys)
    ensures
        strs(final(args)@) == strs(old(args)@) + ks@,
{
    let ghost start = strs(args@);
    let n = ks.keys.len();
    let mut i: usize = 0;
    while i < n
        invariant
            n == ks.keys.len(),
            i <= n,
            strs(args@) == start + ks@.take(i as int),
        decreases n - i,
    {
        let ghost before = args@;
        args.push(ks.keys[i].key.clone());
        assert(strs(args@) =~= strs(before).push(ks@[i as int]));
        assert(strs(args@) =~= start + ks@.take(i + 1));
        i = i + 1;
    }
    assert(ks@.take(n as int) =~= ks@);
}

impl StoreCommand {
    /// The arguments that follow the command's name on the wire.
    pub fn arguments(&self) -> (r: Vec<String>)
        ensures
            strs(r@) == self@.arguments(),
    {
        let mut args: Vec<String> = Vec::new();
        assert(strs(args@) =~= Seq::empty());
        match self {
            StoreCommand::MSet(kvs) => push_pairs(&mut args, kvs),
            StoreCommand::MGet(ks) => push_keys(&mut args, ks),
            StoreCommand::HMSet(h, kvs) => {
                args.push(h.key.clone());
                push_pairs(&mut args, kvs);
            },
            StoreCommand::HMGet(h, ks) => {
                args.push(h.key.clone());
                push_keys(&mut args, ks);
            },
            StoreCommand::HGetAll(h) | StoreCommand::HKeys(h) | StoreCommand::HVals(h) => {
                args.push(h.key.clone());
            },
        }
        assert(strs(args@) =~= self@.arguments());
        args
    }

    /// Whether the store answers with a bare acknowledgement.
    pub fn acknowledged(&self) -> (r: bool)
        ensures
            r == self@.acknowledged(),
    {
        match self {
            StoreCommand::MSet(_) | StoreCommand::HMSet(_, _) => true,
            _ => false,
        }
    }

    pub fn name(&self) -> (r: &'static str)
        ensures
            r@ == self@.wire_name(),
    {
        match self {
            StoreCommand::MSet(_) => "MSET",
            StoreCommand::MGet(_) => "MGET",
            StoreCommand::HMSet(_, _) => "HMSET",
            StoreCommand::HMGet(_, _) => "HMGET",
            StoreCommand::HGetAll(_) => "HGETALL",
            StoreCommand::HKeys(_) => "HKEYS",
            StoreCommand::HVals(_) => "HVALS",
        }
    }
}

} // verus!
