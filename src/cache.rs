//! The cache of pool capacity and I/O statistics exposed to a metrics
//! scraper.  It is owned by the hosting process and filled in once: the slot
//! that holds it is initialized at most once, and reading it before then is
//! ruled out by the contract of `Cache::get_cache`.
use vstd::prelude::*;

verus! {

/// Capacity and state of one pool.
#[derive(Debug)]
pub struct PoolInfo {
    pub name: String,
    pub node: String,
    pub capacity: u64,
    pub used: u64,
    pub committed: u64,
    pub state: u64,
}

/// I/O statistics of one pool.
#[derive(Debug)]
pub struct PoolIoStat {
    pub name: String,
    pub num_read_ops: u64,
    pub bytes_read: u64,
    pub num_write_ops: u64,
    pub bytes_written: u64,
    pub read_latency_us: u64,
    pub write_latency_us: u64,
}

/// The pools last polled.
#[derive(Debug)]
pub struct Pools {
    pub pools: Vec<PoolInfo>,
}

/// The pool I/O statistics last polled.
#[derive(Debug)]
pub struct PoolIoStats {
    pub pool_stats: Vec<PoolIoStat>,
}

/// Wrapper over all the data stored in the cache.
#[derive(Debug)]
pub struct Data {
    /// Pool capacity and state.
    pub pools: Pools,
    /// Pool I/O statistics.
    pub pool_stats: PoolIoStats,
}

impl Data {
    /// Data with no pools and no statistics.
    pub fn new() -> (r: Data)
        ensures
            r.pools.pools@.len() == 0,
            r.pool_stats.pool_stats@.len() == 0,
    {
        Data { pools: Pools { pools: Vec::new() }, pool_stats: PoolIoStats { pool_stats: Vec::new() } }
    }
}

impl Default for Data {
    fn default() -> (r: Data)
        ensures
            r.pools.pools@.len() == 0,
            r.pool_stats.pool_stats@.len() == 0,
    {
        Data::new()
    }
}

/// Cache of the data exposed through the metrics exporter.
#[derive(Debug)]
pub struct Cache {
    data: Data,
}

impl Cache {
    /// The data the cache holds.
    pub closed spec fn data(&self) -> Data {
        self.data
    }

    /// Initializes the cache in `slot` with `data`, unless it already holds
    /// one: a cache is initialized once, and later calls change nothing.
    pub fn initialize(slot: &mut Option<Cache>, data: Data)
        ensures
            (*old(slot)) is Some ==> *final(slot) == *old(slot),
            (*old(slot)) is None ==> ((*final(slot)) matches Some(c) && c.data() == data),
    {
        if slot.is_none() {
            *slot = Some(Cache { data });
        }
    }

    /// The cache in `slot`, which must have been initialized.
    pub fn get_cache(slot: &Option<Cache>) -> (r: &Cache)
        requires
            slot is Some,
        ensures
            *r == slot->Some_0,
    {
        slot.as_ref().unwrap()
    }

    /// The pools, to be changed in place.
    pub fn pool_mut(&mut self) -> (r: &mut Pools)
        ensures
            *r == old(self).data().pools,
            final(self).data().pools == *final(r),
            final(self).data().pool_stats == old(self).data().pool_stats,
    {
        &mut self.data.pools
    }

    /// The pool I/O statistics, to be changed in place.
    pub fn pool_iostat_mut(&mut self) -> (r: &mut PoolIoStats)
        ensures
            *r == old(self).data().pool_stats,
            final(self).data().pool_stats == *final(r),
            final(self).data().pools == old(self).data().pools,
    {
        &mut self.data.pool_stats
    }

    /// The pools.
    pub fn pool(&self) -> (r: &Pools)
        ensures
            *r == self.data().pools,
    {
        &self.data.pools
    }

    /// The pool I/O statistics.
    pub fn pool_iostat(&self) -> (r: &PoolIoStats)
        ensures
            *r == self.data().pool_stats,
    {
        &self.data.pool_stats
    }
}

} // verus!
