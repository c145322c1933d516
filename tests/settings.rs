use mr_cache::call::{Action, CacheError, Call, Event};
use mr_cache::messages::{Key, Keys};
use mr_cache::pool::{PoolError, PoolSettings};
use std::time::{Duration, Instant};

#[test]
fn standard_settings_point_at_the_store() {
    let s = PoolSettings::standard();
    assert_eq!(s.host, "host.docker.internal");
    assert_eq!(s.port, "6379");
    assert_eq!(s.connection_timeout_ms, 200);
    assert_eq!(s.endpoint_url(), "redis://host.docker.internal:6379");
}

#[test]
fn endpoint_url_joins_host_and_port() {
    let s = PoolSettings { host: "127.0.0.1".to_string(), port: "7000".to_string(), connection_timeout_ms: 5 };
    assert_eq!(s.endpoint_url(), "redis://127.0.0.1:7000");
}

#[test]
fn readable_address_opens_a_client() {
    assert!(PoolSettings::standard().open_client().is_ok());
}

#[test]
fn unreadable_address_is_refused() {
    let s = PoolSettings { host: "bad host".to_string(), port: "6379".to_string(), connection_timeout_ms: 200 };
    assert_eq!(s.open_client().err(), Some(PoolError::InvalidEndpoint));
    let s = PoolSettings { host: "localhost".to_string(), port: "port".to_string(), connection_timeout_ms: 200 };
    assert_eq!(s.open_client().err(), Some(PoolError::InvalidEndpoint));
}

#[test]
fn unreachable_store_fails_acquisition_within_the_bound() {
    let settings = PoolSettings { host: "127.0.0.1".to_string(), port: "1".to_string(), connection_timeout_ms: 200 };
    let client = settings.open_client().expect("address is readable");
    let pool: r2d2::Pool<redis::Client> = r2d2::Pool::builder()
        .max_size(1)
        .connection_timeout(Duration::from_millis(settings.connection_timeout_ms))
        .build_unchecked(client);
    let start = Instant::now();
    let acquired = pool.get();
    assert!(acquired.is_err());
    assert!(start.elapsed() < Duration::from_secs(10));

    let mut call = Call::get(Keys { keys: vec![Key { key: "k".to_string() }] });
    match call.step(Event::AcquireFailed) {
        Action::Fail(e) => assert_eq!(e, CacheError::ConnectFailed),
        other => panic!("unexpected action {:?}", other),
    }
}
