use keyless_pool::stats::PoolStats;

#[test]
fn stats_start_at_zero() {
    let stats = PoolStats::default();
    assert_eq!(stats.total_count(), 0);
    assert_eq!(stats.alive_count(), 0);
}

#[test]
fn add_connection_counts_total_and_alive() {
    let mut stats = PoolStats::default();
    stats.add_connection();
    stats.add_connection();
    stats.add_connection();
    assert_eq!(stats.total_count(), 3);
    assert_eq!(stats.alive_count(), 3);
}

#[test]
fn del_connection_leaves_total() {
    let mut stats = PoolStats::default();
    stats.add_connection();
    stats.add_connection();
    stats.del_connection();
    assert_eq!(stats.total_count(), 2);
    assert_eq!(stats.alive_count(), 1);
}

#[test]
fn alive_count_is_zero_when_counter_negative() {
    let mut stats = PoolStats::default();
    stats.del_connection();
    stats.del_connection();
    assert_eq!(stats.alive_count(), 0);
    // the counter itself went below zero: two creations bring it back to zero
    stats.add_connection();
    assert_eq!(stats.alive_count(), 0);
    stats.add_connection();
    assert_eq!(stats.alive_count(), 0);
    stats.add_connection();
    assert_eq!(stats.alive_count(), 1);
    assert_eq!(stats.total_count(), 3);
}

#[test]
fn every_termination_is_counted_once() {
    let mut stats = PoolStats::default();
    for _ in 0..5 {
        stats.add_connection();
    }
    for left in (0..5usize).rev() {
        stats.del_connection();
        assert_eq!(stats.alive_count(), left);
    }
    assert_eq!(stats.total_count(), 5);
}
