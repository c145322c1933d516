use mr_cache::call::{Action, CacheError, Call, Event, Stage};
use mr_cache::command::{Operation, StoreCommand};
use mr_cache::messages::{HashedKeyValues, HashedKeys, Key, KeyValue, KeyValues, Keys};
use mr_cache::reply::{Response, StoreReply};

fn key(k: &str) -> Key {
    Key { key: k.to_string() }
}

fn pair(k: &str, v: &str) -> KeyValue {
    KeyValue { key: k.to_string(), value: v.to_string() }
}

fn items(xs: &[Option<&str>]) -> StoreReply {
    StoreReply::Items(xs.iter().map(|x| x.map(|s| s.to_string())).collect())
}

fn values_of(a: Action) -> Vec<String> {
    match a {
        Action::Respond(Response::Values(vs)) => vs.values.into_iter().map(|v| v.value).collect(),
        other => panic!("expected values, got {:?}", other),
    }
}

fn keys_of(a: Action) -> Vec<String> {
    match a {
        Action::Respond(Response::Keys(ks)) => ks.keys.into_iter().map(|k| k.key).collect(),
        other => panic!("expected keys, got {:?}", other),
    }
}

fn failure_of(a: Action) -> CacheError {
    match a {
        Action::Fail(e) => e,
        other => panic!("expected a failure, got {:?}", other),
    }
}

#[test]
fn set_sends_the_whole_batch_and_acknowledges() {
    let mut call = Call::set(KeyValues { key_values: vec![pair("a", "1"), pair("b", "2")] });
    assert_eq!(call.op, Operation::StrSet);
    assert_eq!(call.stage, Stage::Acquiring);
    match &call.command {
        StoreCommand::MSet(kvs) => {
            assert_eq!(kvs.key_values.len(), 2);
            assert_eq!(kvs.key_values[0].key, "a");
            assert_eq!(kvs.key_values[1].value, "2");
        }
        other => panic!("unexpected command {:?}", other),
    }
    assert_eq!(call.command.name(), "MSET");
    assert!(matches!(call.step(Event::Acquired), Action::Send));
    assert_eq!(call.stage, Stage::Awaiting);
    match call.step(Event::Replied(StoreReply::Ack)) {
        Action::Respond(Response::Effect(e)) => assert!(e.effect),
        other => panic!("unexpected action {:?}", other),
    }
    assert_eq!(call.stage, Stage::Finished);
}

#[test]
fn set_then_get_single_key_scenario() {
    let mut set = Call::set(KeyValues { key_values: vec![pair("k", "v")] });
    set.step(Event::Acquired);
    assert!(matches!(set.step(Event::Replied(StoreReply::Ack)), Action::Respond(_)));
    let mut get = Call::get(Keys { keys: vec![key("k")] });
    assert_eq!(get.command.name(), "MGET");
    get.step(Event::Acquired);
    assert_eq!(values_of(get.step(Event::Replied(items(&[Some("v")])))), vec!["v"]);
}

#[test]
fn get_batch_keeps_request_order() {
    let mut get = Call::get(Keys { keys: vec![key("x"), key("y"), key("z")] });
    get.step(Event::Acquired);
    let got = values_of(get.step(Event::Replied(items(&[Some("1"), Some("2"), Some("3")]))));
    assert_eq!(got, vec!["1", "2", "3"]);
}

#[test]
fn get_drops_missing_keys() {
    let mut get = Call::get(Keys { keys: vec![key("a"), key("b"), key("c"), key("d")] });
    get.step(Event::Acquired);
    let got = values_of(get.step(Event::Replied(items(&[Some("1"), None, Some("3"), None]))));
    // four keys requested, two missing: two values, positions not kept
    assert_eq!(got.len(), 4 - 2);
    assert_eq!(got, vec!["1", "3"]);
}

#[test]
fn get_with_every_key_missing_is_empty() {
    let mut get = Call::get(Keys { keys: vec![key("a"), key("b")] });
    get.step(Event::Acquired);
    assert!(values_of(get.step(Event::Replied(items(&[None, None])))).is_empty());
}

#[test]
fn hset_then_hgetall_lists_fields_and_values() {
    let mut hset = Call::hset(HashedKeyValues {
        key: Some(key("h")),
        key_values: Some(KeyValues { key_values: vec![pair("f1", "v1"), pair("f2", "v2")] }),
    });
    assert_eq!(hset.op, Operation::HashSet);
    assert_eq!(hset.command.name(), "HMSET");
    match &hset.command {
        StoreCommand::HMSet(h, kvs) => {
            assert_eq!(h.key, "h");
            assert_eq!(kvs.key_values[1].key, "f2");
        }
        other => panic!("unexpected command {:?}", other),
    }
    hset.step(Event::Acquired);
    assert!(matches!(
        hset.step(Event::Replied(StoreReply::Ack)),
        Action::Respond(Response::Effect(_))
    ));
    let mut all = Call::hgetall(key("h"));
    assert_eq!(all.command.name(), "HGETALL");
    all.step(Event::Acquired);
    let got = values_of(all.step(Event::Replied(items(&[
        Some("f2"),
        Some("v2"),
        Some("f1"),
        Some("v1"),
    ]))));
    assert_eq!(got, vec!["f2", "v2", "f1", "v1"]);
    let vals: Vec<&String> = got.iter().skip(1).step_by(2).collect();
    assert!(vals.contains(&&"v1".to_string()) && vals.contains(&&"v2".to_string()));
}

#[test]
fn hget_drops_missing_fields() {
    let mut hget = Call::hget(HashedKeys {
        key: Some(key("h")),
        keys: Some(Keys { keys: vec![key("f1"), key("nope"), key("f2")] }),
    });
    assert_eq!(hget.command.name(), "HMGET");
    hget.step(Event::Acquired);
    let got = values_of(hget.step(Event::Replied(items(&[Some("v1"), None, Some("v2")]))));
    assert_eq!(got, vec!["v1", "v2"]);
}

#[test]
fn hkeys_and_hvals_of_empty_hash_are_empty() {
    let mut hk = Call::hkeys(key("none"));
    assert_eq!(hk.command.name(), "HKEYS");
    hk.step(Event::Acquired);
    assert!(keys_of(hk.step(Event::Replied(items(&[])))).is_empty());
    let mut hv = Call::hvals(key("none"));
    assert_eq!(hv.command.name(), "HVALS");
    hv.step(Event::Acquired);
    assert!(values_of(hv.step(Event::Replied(items(&[])))).is_empty());
    let mut all = Call::hgetall(key("none"));
    all.step(Event::Acquired);
    assert!(values_of(all.step(Event::Replied(items(&[])))).is_empty());
}

#[test]
fn hkeys_answers_keys() {
    let mut hk = Call::hkeys(key("h"));
    hk.step(Event::Acquired);
    assert_eq!(keys_of(hk.step(Event::Replied(items(&[Some("f1"), Some("f2")])))), vec!["f1", "f2"]);
}

#[test]
fn failed_acquisition_is_a_connection_error() {
    let mut call = Call::get(Keys { keys: vec![key("a")] });
    let e = failure_of(call.step(Event::AcquireFailed));
    assert_eq!(e, CacheError::ConnectFailed);
    assert_eq!(e.message(), "Failed to connect to Redis DB");
    assert_eq!(call.stage, Stage::Finished);
    assert!(matches!(call.step(Event::Acquired), Action::Wait));
}

#[test]
fn failed_batch_set_reports_the_whole_batch_failed() {
    let mut call = Call::set(KeyValues { key_values: vec![pair("a", "1"), pair("b", "2")] });
    call.step(Event::Acquired);
    let e = failure_of(call.step(Event::StoreFailed));
    assert_eq!(e, CacheError::CommandFailed(Operation::StrSet));
    assert_eq!(e.message(), "Failed to use SET from Redis DB");
    // no acknowledgement can follow
    assert!(matches!(call.step(Event::Replied(StoreReply::Ack)), Action::Wait));
    assert_eq!(call.stage, Stage::Finished);
}

#[test]
fn reply_of_the_wrong_shape_is_a_command_error() {
    let mut get = Call::get(Keys { keys: vec![key("a")] });
    get.step(Event::Acquired);
    assert_eq!(
        failure_of(get.step(Event::Replied(StoreReply::Ack))),
        CacheError::CommandFailed(Operation::StrGet)
    );
    let mut set = Call::set(KeyValues { key_values: vec![pair("a", "1")] });
    set.step(Event::Acquired);
    assert_eq!(
        failure_of(set.step(Event::Replied(items(&[Some("x")])))),
        CacheError::CommandFailed(Operation::StrSet)
    );
}

#[test]
fn events_out_of_turn_are_ignored() {
    let mut call = Call::hgetall(key("h"));
    assert!(matches!(call.step(Event::Replied(StoreReply::Ack)), Action::Wait));
    assert!(matches!(call.step(Event::StoreFailed), Action::Wait));
    assert_eq!(call.stage, Stage::Acquiring);
    call.step(Event::Acquired);
    assert!(matches!(call.step(Event::Acquired), Action::Wait));
    assert!(matches!(call.step(Event::AcquireFailed), Action::Wait));
    assert_eq!(call.stage, Stage::Awaiting);
}

#[test]
fn every_operation_names_itself_in_its_error() {
    let cases = [
        (Operation::StrSet, "Failed to use SET from Redis DB"),
        (Operation::StrGet, "Failed to use GET from Redis DB"),
        (Operation::HashSet, "Failed to use HSET from Redis DB"),
        (Operation::HashGet, "Failed to use HGET from Redis DB"),
        (Operation::HashGetAll, "Failed to use HGETALL from Redis DB"),
        (Operation::HashKeys, "Failed to use HKEYS from Redis DB"),
        (Operation::HashValues, "Failed to use HVALS from Redis DB"),
    ];
    for (op, text) in cases {
        assert_eq!(CacheError::CommandFailed(op).message(), text);
    }
}

#[test]
fn commands_carry_their_arguments_in_order() {
    let set = Call::set(KeyValues { key_values: vec![pair("a", "1"), pair("b", "2")] });
    assert_eq!(set.command.arguments(), vec!["a", "1", "b", "2"]);
    assert!(set.command.acknowledged());
    let get = Call::get(Keys { keys: vec![key("a"), key("b")] });
    assert_eq!(get.command.arguments(), vec!["a", "b"]);
    assert!(!get.command.acknowledged());
    let hset = Call::hset(HashedKeyValues {
        key: Some(key("h")),
        key_values: Some(KeyValues { key_values: vec![pair("f1", "v1"), pair("f2", "v2")] }),
    });
    assert_eq!(hset.command.arguments(), vec!["h", "f1", "v1", "f2", "v2"]);
    assert!(hset.command.acknowledged());
    let hget = Call::hget(HashedKeys {
        key: Some(key("h")),
        keys: Some(Keys { keys: vec![key("f1"), key("f2")] }),
    });
    assert_eq!(hget.command.arguments(), vec!["h", "f1", "f2"]);
    assert!(!hget.command.acknowledged());
    for call in [Call::hgetall(key("h")), Call::hkeys(key("h")), Call::hvals(key("h"))] {
        assert_eq!(call.command.arguments(), vec!["h"]);
        assert!(!call.command.acknowledged());
    }
}

#[test]
fn empty_batch_has_no_arguments() {
    let set = Call::set(KeyValues { key_values: vec![] });
    assert!(set.command.arguments().is_empty());
}
