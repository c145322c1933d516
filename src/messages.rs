//! The request and response messages of the cache service.
use vstd::prelude::*;

verus! {

/// A key of the store, or a field name inside a hash.
#[derive(Clone, Debug)]
pub struct Key {
    pub key: String,
}

impl View for Key {
    type V = Seq<char>;

    open spec fn view(&self) -> Seq<char> {
        self.key@
    }
}

/// An ordered collection of keys.
#[derive(Clone, Debug)]
pub struct Keys {
    pub keys: Vec<Key>,
}

impl View for Keys {
    type V = Seq<Seq<char>>;

    open spec fn view(&self) -> Seq<Seq<char>> {
        self.keys@.map_values(|k: Key| k@)
    }
}

/// An opaque string payload.
#[derive(Clone, Debug)]
pub struct Value {
    pub value: String,
}

impl View for Value {
    type V = Seq<char>;

    open spec fn view(&self) -> Seq<char> {
        self.value@
    }
}

/// An ordered collection of values.
#[derive(Clone, Debug)]
pub struct Values {
    pub values: Vec<Value>,
}

impl View for Values {
    type V = Seq<Seq<char>>;

    open spec fn view(&self) -> Seq<Seq<char>> {
        self.values@.map_values(|v: Value| v@)
    }
}

/// A key (or field) together with the value to store under it.
#[derive(Clone, Debug)]
pub struct KeyValue {
    pub key: String,
    pub value: String,
}

impl View for KeyValue {
    type V = (Seq<char>, Seq<char>);

    open spec fn view(&self) -> (Seq<char>, Seq<char>) {
        (self.key@, self.value@)
    }
}

/// A batch of pairs, written together.
#[derive(Clone, Debug)]
pub struct KeyValues {
    pub key_values: Vec<KeyValue>,
}

impl View for KeyValues {
    type V = Seq<(Seq<char>, Seq<char>)>;

    open spec fn view(&self) -> Seq<(Seq<char>, Seq<char>)> {
        self.key_values@.map_values(|kv: KeyValue| kv@)
    }
}

/// A hash key and the field/value pairs to write into it.
#[derive(Clone, Debug)]
pub struct HashedKeyValues {
    pub key: Option<Key>,
    pub key_values: Option<KeyValues>,
}

/// A hash key and the fields to read from it.
#[derive(Clone, Debug)]
pub struct HashedKeys {
    pub key: Option<Key>,
    pub keys: Option<Keys>,
}

/// The acknowledgement of a write.
#[derive(Clone, Copy, Debug, PartialEq, Eq, Structural)]
pub struct Effect {
    pub effect: bool,
}

} // verus!
