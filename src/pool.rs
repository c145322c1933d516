//! The settings that the pool of store connections is made from.
use vstd::prelude::*;

verus! {

#[verifier::external_type_specification]
#[verifier::external_body]
pub struct ExClient(redis::Client);

#[verifier::external_type_specification]
#[verifier::external_body]
pub struct ExRedisError(redis::RedisError);

/// Whether the store client accepts `url` as the address of a store. It
/// depends on the text of the address alone.
pub uninterp spec fn accepts_store_url(url: Seq<char>) -> bool;

/// Relies on `redis::Client::open`: it parses the address, without
/// connecting, and fails exactly on the addresses it cannot read.
#[verifier::external_body]
fn open_store_client(url: String) -> (r: Result<redis::Client, redis::RedisError>)
    ensures
        r is Ok <==> accepts_store_url(url@),
{
    redis::Client::open(url)
}

/// Why no pool could be set up.
#[derive(Clone, Copy, Debug, PartialEq, Eq, Structural)]
pub enum PoolError {
    /// The store's address is not one the client can read.
    InvalidEndpoint,
}

/// Where the store is reached, and how long an acquisition may wait for a
/// connection before it fails.
#[derive(Clone, Debug)]
pub struct PoolSettings {
    pub host: String,
    pub port: String,
    pub connection_timeout_ms: u64,
}

/// The address of the store at `host` and `port`.
pub open spec fn endpoint_url_of(host: Seq<char>, port: Seq<char>) -> Seq<char> {
    "redis://"@ + host + ":"@ + port
}

impl PoolSettings {
    /// An acquisition waits a bounded, non-zero time: the pool refuses a zero
    /// timeout, and without a bound a caller could wait forever.
    pub open spec fn valid(&self) -> bool {
        self.connection_timeout_ms > 0
    }

    /// The settings the service runs with.
    pub fn standard() -> (r: PoolSettings)
        ensures
            r.host@ == "host.docker.internal"@,
            r.port@ == "6379"@,
            r.connection_timeout_ms == 200,
            r.valid(),
    {
        PoolSettings {
            host: String::from_str("host.docker.internal"),
            port: String::from_str("6379"),
            connection_timeout_ms: 200,
        }
    }

    /// The address of the store.
    pub fn endpoint_url(&self) -> (r: String)
        ensures
            r@ == endpoint_url_of(self.host@, self.port@),
    {
        let mut url = String::from_str("redis://");
        url.append(self.host.as_str());
        url.append(":");
        url.append(self.port.as_str());
        url
    }

    /// A client for the store's address, ready to hand to a pool.
    pub fn open_client(&self) -> (r: Result<redis::Client, PoolError>)
        ensures
            r is Ok <==> accepts_store_url(endpoint_url_of(self.host@, self.port@)),
            r is Err ==> r == Err::<redis::Client, PoolError>(PoolError::InvalidEndpoint),
    {
        match open_store_client(self.endpoint_url()) {
            Ok(client) => Ok(client),
            Err(_) => Err(PoolError::InvalidEndpoint),
        }
    }
}

} // verus!
