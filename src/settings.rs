use vstd::prelude::*;

verus! {

/// Largest number of connections a pool holds when nothing else is asked for,
/// as in r2d2's `Builder` defaults.
pub const DEFAULT_MAX_SIZE: u32 = 10;

/// Time in milliseconds that a borrow waits for a free connection when
/// nothing else is asked for, as in r2d2's `Builder` defaults.
pub const DEFAULT_CONNECTION_TIMEOUT_MS: u64 = 30000;

/// How a connection pool is sized and how long a borrow may wait.
#[derive(Clone, Copy, Debug, PartialEq, Eq, Structural)]
pub struct PoolSettings {
    /// Upper bound on the connections that are open at once.
    pub max_size: u32,
    /// How long, in milliseconds, building the pool and each borrow may wait.
    pub connection_timeout_ms: u64,
}

impl PoolSettings {
    /// Both bounds are positive: a pool of no connections, or a wait of no
    /// time, is not a pool that can be built.
    pub open spec fn wf(self) -> bool {
        self.max_size > 0 && self.connection_timeout_ms > 0
    }

    /// The pooling policy's own defaults: ten connections, thirty seconds.
    pub fn defaults() -> (r: PoolSettings)
        ensures
            r.max_size == DEFAULT_MAX_SIZE,
            r.connection_timeout_ms == DEFAULT_CONNECTION_TIMEOUT_MS,
            r.wf(),
    {
        PoolSettings { max_size: DEFAULT_MAX_SIZE, connection_timeout_ms: DEFAULT_CONNECTION_TIMEOUT_MS }
    }

    /// Settings with the given bounds, or `None` where one of them is zero.
    pub fn new(max_size: u32, connection_timeout_ms: u64) -> (r: Option<PoolSettings>)
        ensures
            r is Some <==> (max_size > 0 && connection_timeout_ms > 0),
            r matches Some(s) ==> s.max_size == max_size && s.connection_timeout_ms
                == connection_timeout_ms && s.wf(),
    {
        if max_size == 0 || connection_timeout_ms == 0 {
            None
        } else {
            Some(PoolSettings { max_size, connection_timeout_ms })
        }
    }
}

} // verus!
