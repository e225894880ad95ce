use vstd::prelude::*;
use diesel::pg::PgConnection;
use r2d2::{Pool, PooledConnection};
use r2d2_diesel::ConnectionManager;
use reqwest::blocking::Client;
use std::sync::Arc;
use crate::settings::PoolSettings;

verus! {

#[verifier::external_type_specification]
#[verifier::external_body]
pub struct ExPoolError(r2d2::Error);

#[verifier::external_type_specification]
#[verifier::external_body]
pub struct ExClient(Client);

#[verifier::external_type_specification]
#[verifier::external_body]
pub struct ExTransportError(reqwest::Error);

/// A pool of PostgreSQL connections. r2d2's pool type is bounded by a trait
/// that Verus cannot declare, so it is held here, out of Verus's sight, and
/// reached only through the functions below.
#[verifier::external_body]
pub struct DbPool {
    inner: Pool<ConnectionManager<PgConnection>>,
}

/// A connection borrowed from a `DbPool`; it goes back to the pool when
/// dropped.
#[verifier::external_body]
pub struct DbConnection {
    pub inner: PooledConnection<ConnectionManager<PgConnection>>,
}

/// The largest number of connections that a pool was built to hold.
pub uninterp spec fn max_size_of(p: DbPool) -> u32;

/// How long, in milliseconds, a pool was built to wait for a connection.
pub uninterp spec fn connection_timeout_ms_of(p: DbPool) -> u64;

/// The database URL that a pool's connection manager opens connections to.
pub uninterp spec fn database_url_of(p: DbPool) -> Seq<char>;

/// Relies on r2d2's `Pool::clone`, which returns a pool that refers to the
/// same shared state (the same connections and the same configuration).
#[verifier::external_body]
fn share_pool(p: &DbPool) -> (r: DbPool)
    ensures
        r == *p,
{
    DbPool { inner: p.inner.clone() }
}

/// Relies on std's `Arc::clone`, which hands out another pointer to the same
/// allocation.
#[verifier::external_body]
fn share_api(a: &Arc<TelegramApi>) -> (r: Arc<TelegramApi>)
    ensures
        r == *a,
{
    Arc::clone(a)
}

/// Relies on reqwest's `Client::builder` and `ClientBuilder::build` (blocking
/// API): either a client with its transport set up, or the error that kept the
/// transport (the TLS backend, the runtime thread) from starting.
#[verifier::external_body]
fn build_client() -> (r: Result<Client, reqwest::Error>) {
    Client::builder().build()
}

/// Relies on r2d2-diesel's `ConnectionManager::new` and on r2d2's
/// `Pool::builder`, `Builder::max_size`, `Builder::connection_timeout` and
/// `Builder::build`: `build` waits up to the timeout for the pool's initial
/// connections and returns r2d2's error where they cannot be opened; a pool
/// it returns was built with the maximum size and the timeout given, and its
/// manager holds the URL given. Both setters panic on zero.
#[verifier::external_body]
fn build_pool(database_url: &str, max_size: u32, connection_timeout_ms: u64) -> (r: Result<
    DbPool,
    r2d2::Error,
>)
    requires
        max_size > 0,
        connection_timeout_ms > 0,
    ensures
        r matches Ok(p) ==> max_size_of(p) == max_size && connection_timeout_ms_of(p)
            == connection_timeout_ms && database_url_of(p) == database_url@,
{
    let manager = ConnectionManager::<PgConnection>::new(database_url);
    Pool::builder().max_size(max_size).connection_timeout(
        std::time::Duration::from_millis(connection_timeout_ms),
    ).build(manager).map(|inner| DbPool { inner })
}

/// Relies on r2d2-diesel's `ConnectionManager::new` and on r2d2's `Pool::new`,
/// which builds with `Builder`'s defaults (ten connections, a thirty-second
/// connection timeout) and, as `Builder::build` does, waits for the initial
/// connections and returns r2d2's error where they cannot be opened in time.
#[verifier::external_body]
fn build_default_pool(database_url: &str) -> (r: Result<DbPool, r2d2::Error>)
    ensures
        r matches Ok(p) ==> max_size_of(p) == 10 && connection_timeout_ms_of(p) == 30000
            && database_url_of(p) == database_url@,
{
    Pool::new(ConnectionManager::<PgConnection>::new(database_url)).map(|inner| DbPool { inner })
}

/// Relies on r2d2's `Pool::max_size`: the maximum size the pool was built with.
#[verifier::external_body]
fn pool_max_size(p: &DbPool) -> (r: u32)
    ensures
        r == max_size_of(*p),
{
    p.inner.max_size()
}

/// Relies on r2d2's `Pool::state`: the connections the pool manages at that
/// moment and how many of them are idle. The pool opens a connection only
/// while those it manages and those being opened stay under its maximum size,
/// and every idle connection is one it manages.
#[verifier::external_body]
fn pool_state(p: &DbPool) -> (r: PoolUsage)
    ensures
        r.connections <= max_size_of(*p),
        r.idle_connections <= r.connections,
{
    let state = p.inner.state();
    PoolUsage { connections: state.connections, idle_connections: state.idle_connections }
}

/// Relies on r2d2's `Pool::get`: a connection, or r2d2's error once the
/// pool's configured timeout has passed without one coming free.
#[verifier::external_body]
fn pool_get(p: &DbPool) -> (r: Result<DbConnection, r2d2::Error>) {
    p.inner.get().map(|inner| DbConnection { inner })
}

/// Relies on r2d2's `Pool::get_timeout`: a connection, or r2d2's error once
/// `timeout_ms` milliseconds have passed without one coming free.
#[verifier::external_body]
fn pool_get_timeout(p: &DbPool, timeout_ms: u64) -> (r: Result<DbConnection, r2d2::Error>) {
    p.inner.get_timeout(std::time::Duration::from_millis(timeout_ms)).map(|inner| DbConnection { inner })
}

/// A snapshot of a pool: the connections it manages and how many of them
/// nobody has borrowed.
#[derive(Clone, Copy, Debug, PartialEq, Eq, Structural)]
pub struct PoolUsage {
    pub connections: u32,
    pub idle_connections: u32,
}

impl PoolUsage {
    /// Idle connections are among the managed ones.
    pub open spec fn wf(self) -> bool {
        self.idle_connections <= self.connections
    }

    /// The connections that are borrowed at the moment of the snapshot.
    pub fn in_use(&self) -> (r: u32)
        requires
            self.wf(),
        ensures
            r == self.connections - self.idle_connections,
    {
        self.connections - self.idle_connections
    }
}

/// Why the shared resources could not be set up or lent out.
#[derive(Debug)]
pub enum ComponentsError {
    /// The HTTP transport of the messaging-API client did not start.
    TransportInit(reqwest::Error),
    /// The connection pool could not be built from the database URL.
    PoolInit(r2d2::Error),
    /// No connection came free before the acquisition timeout.
    PoolExhausted(r2d2::Error),
}

/// The messaging-API client: an HTTP transport and the bot's token, both
/// read-only once built.
pub struct TelegramApi {
    pub client: Client,
    pub token: String,
}

impl TelegramApi {
    /// The client for `token` over `client`.
    pub fn new(client: Client, token: String) -> (r: TelegramApi)
        ensures
            r.client == client,
            r.token@ == token@,
    {
        TelegramApi { client, token }
    }

    /// The client for `token` over the transport that was built, or
    /// `TransportInit` with the transport's error.
    pub fn from_transport(client: Result<Client, reqwest::Error>, token: String) -> (r: Result<
        TelegramApi,
        ComponentsError,
    >)
        ensures
            client is Ok <==> r is Ok,
            client matches Ok(c) ==> (r matches Ok(api) && api.client == c && api.token@ == token@),
            client matches Err(e) ==> (r matches Err(ComponentsError::TransportInit(e2)) && e2 == e),
    {
        match client {
            Ok(c) => Ok(TelegramApi::new(c, token)),
            Err(e) => Err(ComponentsError::TransportInit(e)),
        }
    }

    /// The bot's token.
    pub fn token(&self) -> (r: &str)
        ensures
            r@ == self.token@,
    {
        self.token.as_str()
    }
}

/// The process-wide composition root: one messaging-API client behind a
/// reference count and one connection pool, both shared by every clone.
pub struct Components {
    pub api: Arc<TelegramApi>,
    pub connection_pool: DbPool,
}

impl Components {
    /// `self` and `other` hold the same client and the same pool.
    pub open spec fn shares_with(&self, other: &Components) -> bool {
        self.api == other.api && self.connection_pool == other.connection_pool
    }

    /// Components over `api` and the pool that was built, or `PoolInit` with
    /// the pool's error.
    pub fn assemble(api: TelegramApi, pool: Result<DbPool, r2d2::Error>) -> (r: Result<
        Components,
        ComponentsError,
    >)
        ensures
            pool is Ok <==> r is Ok,
            pool matches Ok(p) ==> (r matches Ok(c) && *c.api == api && c.connection_pool == p),
            pool matches Err(e) ==> (r matches Err(ComponentsError::PoolInit(e2)) && e2 == e),
    {
        match pool {
            Ok(p) => Ok(Components { api: Arc::new(api), connection_pool: p }),
            Err(e) => Err(ComponentsError::PoolInit(e)),
        }
    }

    /// Builds the client for `bot_token`, then a pool on `database_url` under
    /// `settings`. A transport that does not start gives `TransportInit` and no
    /// pool is tried; a pool whose initial connections cannot be opened within
    /// the timeout gives `PoolInit`. No partly built value is returned. The
    /// pool is eager: it waits for its connections to open before returning.
    /// Panics when called inside an async runtime, as reqwest's blocking
    /// client builder does.
    pub fn with_settings(bot_token: String, database_url: &str, settings: PoolSettings) -> (r:
        Result<Components, ComponentsError>)
        requires
            settings.wf(),
        ensures
            r matches Ok(c) ==> c.api.token@ == bot_token@ && max_size_of(c.connection_pool)
                == settings.max_size && connection_timeout_ms_of(c.connection_pool)
                == settings.connection_timeout_ms && database_url_of(c.connection_pool)
                == database_url@,
            r matches Err(e) ==> (e is TransportInit || e is PoolInit),
    {
        let api = match TelegramApi::from_transport(build_client(), bot_token) {
            Ok(api) => api,
            Err(e) => return Err(e),
        };
        let pool = build_pool(database_url, settings.max_size, settings.connection_timeout_ms);
        Components::assemble(api, pool)
    }

    /// Builds the client for `bot_token`, then a pool on `database_url` under
    /// the pooling policy's own defaults, which this layer does not override.
    /// Fails as `with_settings` does, and panics inside an async runtime as it
    /// does.
    pub fn new(bot_token: String, database_url: &str) -> (r: Result<Components, ComponentsError>)
        ensures
            r matches Ok(c) ==> c.api.token@ == bot_token@ && max_size_of(c.connection_pool)
                == crate::settings::DEFAULT_MAX_SIZE && connection_timeout_ms_of(c.connection_pool)
                == crate::settings::DEFAULT_CONNECTION_TIMEOUT_MS && database_url_of(
                c.connection_pool,
            ) == database_url@,
            r matches Err(e) ==> (e is TransportInit || e is PoolInit),
    {
        let api = match TelegramApi::from_transport(build_client(), bot_token) {
            Ok(api) => api,
            Err(e) => return Err(e),
        };
        Components::assemble(api, build_default_pool(database_url))
    }

    /// The borrowed connection, or `PoolExhausted` with the pool's error.
    pub fn checkout(r: Result<DbConnection, r2d2::Error>) -> (out: Result<DbConnection, ComponentsError>)
        ensures
            r is Ok <==> out is Ok,
            r matches Ok(c) ==> (out matches Ok(c2) && c2 == c),
            r matches Err(e) ==> (out matches Err(ComponentsError::PoolExhausted(e2)) && e2 == e),
    {
        match r {
            Ok(c) => Ok(c),
            Err(e) => Err(ComponentsError::PoolExhausted(e)),
        }
    }

    /// Borrows one connection, waiting at most the pool's configured timeout.
    /// There is no retry: a pool that stays full gives `PoolExhausted`.
    pub fn get_connection(&self) -> (r: Result<DbConnection, ComponentsError>)
        ensures
            r matches Err(e) ==> e is PoolExhausted,
    {
        Components::checkout(pool_get(&self.connection_pool))
    }

    /// Borrows one connection, waiting at most `timeout_ms` milliseconds.
    pub fn get_connection_timeout(&self, timeout_ms: u64) -> (r: Result<DbConnection, ComponentsError>)
        ensures
            r matches Err(e) ==> e is PoolExhausted,
    {
        Components::checkout(pool_get_timeout(&self.connection_pool, timeout_ms))
    }

    /// What the pool holds now. However many units of work borrow at once,
    /// the pool never manages more connections than its maximum size, so no
    /// more than that many are ever lent out together.
    pub fn usage(&self) -> (r: PoolUsage)
        ensures
            r.wf(),
            r.connections <= max_size_of(self.connection_pool),
            r.connections - r.idle_connections <= max_size_of(self.connection_pool),
    {
        pool_state(&self.connection_pool)
    }

    /// The largest number of connections that the pool holds at once.
    pub fn max_size(&self) -> (r: u32)
        ensures
            r == max_size_of(self.connection_pool),
    {
        pool_max_size(&self.connection_pool)
    }
}

impl Clone for Components {
    /// Another handle on the same client and the same pool: nothing new is
    /// built or connected.
    fn clone(&self) -> (r: Components)
        ensures
            r.shares_with(self),
    {
        Components { api: share_api(&self.api), connection_pool: share_pool(&self.connection_pool) }
    }
}

/// Every two clones of one `Components` hold one and the same client and one
/// and the same pool.
pub proof fn lemma_clones_share(c: Components, c1: Components, c2: Components)
    requires
        cloned(c, c1),
        cloned(c, c2),
    ensures
        c1.shares_with(&c2),
        c1.api == c2.api,
        c1.connection_pool == c2.connection_pool,
{
}

} // verus!
