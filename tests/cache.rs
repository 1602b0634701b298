use supportability::cache::{Cache, Data, PoolInfo, PoolIoStat};

fn pool(name: &str) -> PoolInfo {
    PoolInfo {
        name: name.to_string(),
        node: "node-1".to_string(),
        capacity: 100,
        used: 10,
        committed: 20,
        state: 1,
    }
}

#[test]
fn new_data_is_empty() {
    let d = Data::new();
    assert!(d.pools.pools.is_empty());
    assert!(d.pool_stats.pool_stats.is_empty());
    let e = Data::default();
    assert!(e.pools.pools.is_empty());
}

#[test]
fn initialize_only_once() {
    let mut slot: Option<Cache> = None;
    let mut first = Data::new();
    first.pools.pools.push(pool("pool-a"));
    Cache::initialize(&mut slot, first);
    Cache::initialize(&mut slot, Data::new());
    let cache = Cache::get_cache(&slot);
    assert_eq!(cache.pool().pools.len(), 1);
    assert_eq!(cache.pool().pools[0].name, "pool-a");
}

#[test]
fn mutable_access_changes_the_cache() {
    let mut slot: Option<Cache> = None;
    Cache::initialize(&mut slot, Data::new());
    let cache = slot.as_mut().unwrap();
    cache.pool_mut().pools.push(pool("pool-b"));
    cache.pool_iostat_mut().pool_stats.push(PoolIoStat {
        name: "pool-b".to_string(),
        num_read_ops: 3,
        bytes_read: 4096,
        num_write_ops: 5,
        bytes_written: 8192,
        read_latency_us: 7,
        write_latency_us: 9,
    });
    assert_eq!(cache.pool().pools[0].name, "pool-b");
    assert_eq!(cache.pool_iostat().pool_stats.len(), 1);
    assert_eq!(cache.pool_iostat().pool_stats[0].bytes_written, 8192);
}
