//! A model of the store's command semantics: what each command does to the
//! stored data and which answers it may give. The store is reached over the
//! network and runs none of this; the model states the documented behaviour
//! of its commands so that the round trips of the service can be reasoned
//! about.
use crate::command::CommandView;
use crate::reply::ReplyView;
use vstd::prelude::*;

verus! {

/// What is stored under one key: a string, or a hash of fields to values.
pub enum Entry {
    Text(Seq<char>),
    Fields(Map<Seq<char>, Seq<char>>),
}

/// The data of the store, by key.
pub type Store = Map<Seq<char>, Entry>;

/// Whether `key` holds a string.
pub open spec fn holds_text(s: Store, key: Seq<char>) -> bool {
    s.contains_key(key) && s[key] is Text
}

/// The string stored under `key`; nothing where there is none, or where the
/// key holds a hash.
pub open spec fn text_at(s: Store, key: Seq<char>) -> Option<Seq<char>> {
    if holds_text(s, key) {
        Some(s[key]->Text_0)
    } else {
        None
    }
}

/// What each of `keys` holds as a string.
pub open spec fn texts_at(s: Store, keys: Seq<Seq<char>>) -> Seq<Option<Seq<char>>> {
    keys.map_values(|k: Seq<char>| text_at(s, k))
}

/// The fields of the hash at `key`; none where there is no hash.
pub open spec fn fields_at(s: Store, key: Seq<char>) -> Map<Seq<char>, Seq<char>> {
    if s.contains_key(key) && s[key] is Fields {
        s[key]->Fields_0
    } else {
        Map::empty()
    }
}

/// The value of `field` in the hash at `key`, if any.
pub open spec fn field_at(s: Store, key: Seq<char>, field: Seq<char>) -> Option<Seq<char>> {
    let m = fields_at(s, key);
    if m.contains_key(field) {
        Some(m[field])
    } else {
        None
    }
}

/// What the hash at `key` holds under each of `fields`.
pub open spec fn fields_in(s: Store, key: Seq<char>, fields: Seq<Seq<char>>) -> Seq<Option<Seq<char>>> {
    fields.map_values(|f: Seq<char>| field_at(s, key, f))
}

/// `m` with the pairs written into it in order; a later pair wins.
pub open spec fn write_pairs(
    m: Map<Seq<char>, Seq<char>>,
    pairs: Seq<(Seq<char>, Seq<char>)>,
) -> Map<Seq<char>, Seq<char>>
    decreases pairs.len(),
{
    if pairs.len() == 0 {
        m
    } else {
        write_pairs(m, pairs.drop_last()).insert(pairs.last().0, pairs.last().1)
    }
}

/// The store with each key of the batch set to its string, in order; a
/// later pair wins, and whatever the key held before is replaced.
pub open spec fn write_texts(s: Store, pairs: Seq<(Seq<char>, Seq<char>)>) -> Store
    decreases pairs.len(),
{
    if pairs.len() == 0 {
        s
    } else {
        write_texts(s, pairs.drop_last()).insert(pairs.last().0, Entry::Text(pairs.last().1))
    }
}

/// Whether the store rejects the command: a batch with no items is a wrong
/// number of arguments, and a hash command on a key that holds a string is
/// an operation against a key of the wrong type.
pub open spec fn rejects(s: Store, c: CommandView) -> bool {
    match c {
        CommandView::MSet(pairs) => pairs.len() == 0,
        CommandView::MGet(keys) => keys.len() == 0,
        CommandView::HMSet(h, pairs) => pairs.len() == 0 || holds_text(s, h),
        CommandView::HMGet(h, fields) => fields.len() == 0 || holds_text(s, h),
        CommandView::HGetAll(h) => holds_text(s, h),
        CommandView::HKeys(h) => holds_text(s, h),
        CommandView::HVals(h) => holds_text(s, h),
    }
}

/// The store after it carried out a command that it did not reject.
pub open spec fn after(s: Store, c: CommandView) -> Store {
    match c {
        CommandView::MSet(pairs) => write_texts(s, pairs),
        CommandView::HMSet(h, pairs) => s.insert(
            h,
            Entry::Fields(write_pairs(fields_at(s, h), pairs)),
        ),
        _ => s,
    }
}

/// `ks` lists the keys of `m`, each once, in some order.
pub open spec fn enumerates(ks: Seq<Seq<char>>, m: Map<Seq<char>, Seq<char>>) -> bool {
    &&& ks.no_duplicates()
    &&& forall|k: Seq<char>| m.contains_key(k) <==> ks.contains(k)
}

/// Each field of `ks` followed by its value in `m`.
pub open spec fn field_value_items(
    ks: Seq<Seq<char>>,
    m: Map<Seq<char>, Seq<char>>,
) -> Seq<Option<Seq<char>>>
    decreases ks.len(),
{
    if ks.len() == 0 {
        Seq::empty()
    } else {
        field_value_items(ks.drop_last(), m) + seq![Some(ks.last()), Some(m[ks.last()])]
    }
}

/// Each field of `ks`.
pub open spec fn field_items(ks: Seq<Seq<char>>) -> Seq<Option<Seq<char>>> {
    ks.map_values(|k: Seq<char>| Some(k))
}

/// The value in `m` of each field of `ks`.
pub open spec fn value_items(
    ks: Seq<Seq<char>>,
    m: Map<Seq<char>, Seq<char>>,
) -> Seq<Option<Seq<char>>> {
    ks.map_values(|k: Seq<char>| Some(m[k]))
}

/// Whether the store may answer the command with `r`, given the data it
/// held when the command came. Reads of a whole hash list its fields in an
/// order of the store's choosing.
pub open spec fn may_reply(s: Store, c: CommandView, r: ReplyView) -> bool {
    match c {
        CommandView::MSet(_) => r == ReplyView::Ack,
        CommandView::HMSet(_, _) => r == ReplyView::Ack,
        CommandView::MGet(keys) => r == ReplyView::Items(texts_at(s, keys)),
        CommandView::HMGet(h, fields) => r == ReplyView::Items(fields_in(s, h, fields)),
        CommandView::HGetAll(h) => exists|ks: Seq<Seq<char>>|
            enumerates(ks, fields_at(s, h)) && r == ReplyView::Items(
                #[trigger] field_value_items(ks, fields_at(s, h)),
            ),
        CommandView::HKeys(h) => exists|ks: Seq<Seq<char>>|
            enumerates(ks, fields_at(s, h)) && r == ReplyView::Items(
                #[trigger] field_items(ks),
            ),
        CommandView::HVals(h) => exists|ks: Seq<Seq<char>>|
            enumerates(ks, fields_at(s, h)) && r == ReplyView::Items(
                #[trigger] value_items(ks, fields_at(s, h)),
            ),
    }
}

} // verus!
