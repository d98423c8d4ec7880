use keyless_pool::pool::{
    ConnectionEnd, ConnectionTicket, DrainBroadcast, KeylessConnectionPool, KeylessPoolCmd,
    PoolEvent, PoolSizing, DRAIN_GRACE_SECS,
};
use std::time::Duration;

fn started(max: usize, min: usize) -> (KeylessConnectionPool, Vec<ConnectionTicket>) {
    let mut pool = KeylessConnectionPool::new(max, min);
    let reaction = pool.react(PoolEvent::Started);
    (pool, reaction.created)
}

#[test]
fn new_pool_has_created_nothing() {
    let pool = KeylessConnectionPool::new(10, 2);
    assert_eq!(pool.max_connection(), 10);
    assert_eq!(pool.min_connection(), 2);
    assert_eq!(pool.alive_count(), 0);
    assert_eq!(pool.total_count(), 0);
    assert_eq!(pool.connection_id(), 0);
    assert_eq!(pool.drain_generation(), 0);
    assert!(pool.is_running());
    assert!(pool.can_react(PoolEvent::Started));
    assert!(pool.can_react(PoolEvent::Command(KeylessPoolCmd::UpdatePeers)));
    assert!(pool.can_react(PoolEvent::Command(KeylessPoolCmd::Close)));
}

#[test]
fn started_pool_creates_the_floor() {
    let mut pool = KeylessConnectionPool::new(10, 2);
    let reaction = pool.react(PoolEvent::Started);
    assert_eq!(
        reaction.created,
        vec![
            ConnectionTicket { id: 1, generation: 0 },
            ConnectionTicket { id: 2, generation: 0 }
        ]
    );
    assert_eq!(reaction.drain, None);
    assert!(!reaction.stopped);
    assert_eq!(pool.alive_count(), 2);
    assert_eq!(pool.total_count(), 2);
    assert_eq!(pool.connection_id(), 2);
}

#[test]
fn started_pool_with_zero_floor_creates_nothing() {
    let mut pool = KeylessConnectionPool::new(0, 0);
    let reaction = pool.react(PoolEvent::Started);
    assert!(reaction.created.is_empty());
    assert_eq!(pool.alive_count(), 0);
}

#[test]
fn failed_connection_is_replaced() {
    let (mut pool, tickets) = started(10, 2);
    assert_eq!(pool.alive_count(), 2);
    let id = pool.connection_exited(&tickets[0], ConnectionEnd::RunFailed);
    assert_eq!(id, 1);
    assert_eq!(pool.alive_count(), 1);
    let reaction = pool.react(PoolEvent::ConnectionClosed(id));
    assert_eq!(reaction.created, vec![ConnectionTicket { id: 3, generation: 0 }]);
    assert_eq!(reaction.drain, None);
    assert!(!reaction.stopped);
    assert_eq!(pool.alive_count(), 2);
    assert_eq!(pool.total_count(), 3);
}

#[test]
fn one_report_restores_the_floor_after_several_failures() {
    let (mut pool, tickets) = started(10, 4);
    pool.connection_exited(&tickets[0], ConnectionEnd::Finished);
    pool.connection_exited(&tickets[1], ConnectionEnd::Finished);
    pool.connection_exited(&tickets[3], ConnectionEnd::Finished);
    assert_eq!(pool.alive_count(), 1);
    let reaction = pool.react(PoolEvent::ConnectionClosed(4));
    assert_eq!(
        reaction.created,
        vec![
            ConnectionTicket { id: 5, generation: 0 },
            ConnectionTicket { id: 6, generation: 0 },
            ConnectionTicket { id: 7, generation: 0 }
        ]
    );
    assert_eq!(pool.alive_count(), 4);
    // a report that comes late finds nothing to do
    let late = pool.react(PoolEvent::ConnectionClosed(1));
    assert!(late.created.is_empty());
    assert_eq!(pool.alive_count(), 4);
}

#[test]
fn update_peers_drains_the_current_generation() {
    let (mut pool, tickets) = started(10, 3);
    assert_eq!(tickets.len(), 3);
    let reaction = pool.react(PoolEvent::Command(KeylessPoolCmd::UpdatePeers));
    let drain = reaction.drain.expect("a drain signal");
    assert_eq!(drain.generation, 0);
    assert_eq!(drain.grace, Duration::from_secs(30));
    assert!(tickets.iter().all(|t| drain.reaches(t)));
    assert!(reaction.created.is_empty());
    assert!(!reaction.stopped);
    assert_eq!(pool.alive_count(), 3);
    assert_eq!(pool.drain_generation(), 1);
    assert!(pool.is_running());
}

#[test]
fn drain_grace_is_thirty_seconds() {
    assert_eq!(DRAIN_GRACE_SECS, 30);
    let mut pool = KeylessConnectionPool::new(4, 1);
    let update = pool.react(PoolEvent::Command(KeylessPoolCmd::UpdatePeers));
    assert_eq!(update.drain.unwrap().grace, Duration::new(30, 0));
    let close = pool.react(PoolEvent::Command(KeylessPoolCmd::Close));
    assert_eq!(close.drain.unwrap().grace.as_millis(), 30_000);
}

#[test]
fn connections_listen_to_the_generation_they_were_created_in() {
    let (mut pool, old) = started(10, 2);
    let first = pool
        .react(PoolEvent::Command(KeylessPoolCmd::UpdatePeers))
        .drain
        .unwrap();
    // both old connections retire and are replaced under the new generation
    pool.connection_exited(&old[0], ConnectionEnd::Finished);
    pool.connection_exited(&old[1], ConnectionEnd::Finished);
    let fresh = pool.react(PoolEvent::ConnectionClosed(1)).created;
    assert_eq!(
        fresh,
        vec![
            ConnectionTicket { id: 3, generation: 1 },
            ConnectionTicket { id: 4, generation: 1 }
        ]
    );
    assert!(fresh.iter().all(|t| !first.reaches(t)));
    let second = pool
        .react(PoolEvent::Command(KeylessPoolCmd::UpdatePeers))
        .drain
        .unwrap();
    assert_eq!(second.generation, 1);
    assert!(old.iter().all(|t| !second.reaches(t)));
    assert!(fresh.iter().all(|t| second.reaches(t)));
    assert_eq!(pool.drain_generation(), 2);
}

#[test]
fn drain_reaches_only_its_generation() {
    let drain = DrainBroadcast { generation: 5, grace: Duration::from_secs(30) };
    assert!(drain.reaches(&ConnectionTicket { id: 9, generation: 5 }));
    assert!(!drain.reaches(&ConnectionTicket { id: 9, generation: 4 }));
    assert!(!drain.reaches(&ConnectionTicket { id: 5, generation: 6 }));
}

#[test]
fn shutdown_stops_the_supervisor() {
    let (mut pool, tickets) = started(10, 2);
    let reaction = pool.react(PoolEvent::Command(KeylessPoolCmd::Close));
    let drain = reaction.drain.expect("a drain signal");
    assert_eq!(drain.generation, 0);
    assert_eq!(drain.grace, Duration::from_secs(30));
    assert!(tickets.iter().all(|t| drain.reaches(t)));
    assert!(reaction.created.is_empty());
    assert!(reaction.stopped);
    assert!(!pool.is_running());
    // a connection terminates afterwards: nothing takes its place
    let id = pool.connection_exited(&tickets[1], ConnectionEnd::Finished);
    let late = pool.react(PoolEvent::ConnectionClosed(id));
    assert!(late.created.is_empty());
    assert_eq!(late.drain, None);
    assert!(late.stopped);
    assert_eq!(pool.alive_count(), 1);
    assert_eq!(pool.total_count(), 2);
}

#[test]
fn close_drives_alive_count_to_zero() {
    let (mut pool, tickets) = started(8, 3);
    pool.react(PoolEvent::Command(KeylessPoolCmd::Close));
    for (gone, ticket) in tickets.iter().enumerate() {
        assert_eq!(pool.alive_count(), 3 - gone);
        let id = pool.connection_exited(ticket, ConnectionEnd::Finished);
        assert!(pool.react(PoolEvent::ConnectionClosed(id)).created.is_empty());
    }
    assert_eq!(pool.alive_count(), 0);
}

#[test]
fn shutdown_is_idempotent() {
    let (mut pool, _) = started(10, 2);
    pool.react(PoolEvent::Command(KeylessPoolCmd::Close));
    let again = pool.react(PoolEvent::Command(KeylessPoolCmd::Close));
    assert_eq!(again.drain, None);
    assert!(again.created.is_empty());
    assert!(again.stopped);
    assert!(!pool.is_running());
    assert_eq!(pool.alive_count(), 2);
    assert_eq!(pool.drain_generation(), 0);
}

#[test]
fn stopped_supervisor_ignores_everything() {
    let (mut pool, _) = started(10, 2);
    pool.react(PoolEvent::Command(KeylessPoolCmd::Close));
    for event in [
        PoolEvent::Started,
        PoolEvent::Command(KeylessPoolCmd::UpdatePeers),
        PoolEvent::CommandsClosed,
        PoolEvent::ConnectionClosed(1),
    ] {
        let reaction = pool.react(event);
        assert_eq!(reaction.drain, None);
        assert!(reaction.created.is_empty());
        assert!(reaction.stopped);
    }
    assert_eq!(pool.drain_generation(), 0);
    assert_eq!(pool.connection_id(), 2);
}

#[test]
fn lost_command_source_stops_without_a_drain() {
    let (mut pool, _) = started(10, 2);
    let reaction = pool.react(PoolEvent::CommandsClosed);
    assert_eq!(reaction.drain, None);
    assert!(reaction.created.is_empty());
    assert!(reaction.stopped);
    assert!(!pool.is_running());
    assert_eq!(pool.alive_count(), 2);
}

#[test]
fn update_peers_does_not_grow_the_pool() {
    let mut pool = KeylessConnectionPool::new(10, 2);
    // nothing is alive and the floor is two: an update alone creates nothing
    let reaction = pool.react(PoolEvent::Command(KeylessPoolCmd::UpdatePeers));
    assert!(reaction.created.is_empty());
    assert_eq!(pool.alive_count(), 0);
    assert_eq!(pool.drain_generation(), 1);
}

#[test]
fn check_create_connection_fills_the_gap() {
    let mut pool = KeylessConnectionPool::new(10, 2);
    let created = pool.check_create_connection(3, 5);
    assert_eq!(
        created,
        vec![
            ConnectionTicket { id: 1, generation: 0 },
            ConnectionTicket { id: 2, generation: 0 }
        ]
    );
    assert_eq!(pool.alive_count(), 2);
    assert!(pool.check_create_connection(5, 5).is_empty());
    assert!(pool.check_create_connection(6, 5).is_empty());
    assert!(pool.check_create_connection(0, 0).is_empty());
    assert_eq!(pool.alive_count(), 2);
    assert_eq!(pool.connection_id(), 2);
}

#[test]
fn create_connection_counts_before_anything_is_started() {
    let mut pool = KeylessConnectionPool::new(10, 2);
    let ticket = pool.create_connection();
    assert_eq!(ticket, ConnectionTicket { id: 1, generation: 0 });
    assert_eq!(pool.alive_count(), 1);
    assert_eq!(pool.total_count(), 1);
    let next = pool.create_connection();
    assert_eq!(next.id, 2);
    assert_eq!(pool.alive_count(), 2);
}

#[test]
fn identities_are_never_reused() {
    let (mut pool, first) = started(10, 3);
    let mut seen: Vec<u64> = first.iter().map(|t| t.id).collect();
    for round in 0..4 {
        let gone = seen[round];
        let ticket = ConnectionTicket { id: gone, generation: 0 };
        pool.connection_exited(&ticket, ConnectionEnd::Finished);
        for ticket in pool.react(PoolEvent::ConnectionClosed(gone)).created {
            assert!(!seen.contains(&ticket.id));
            assert!(ticket.id > *seen.last().unwrap());
            seen.push(ticket.id);
        }
    }
    assert_eq!(seen, vec![1, 2, 3, 4, 5, 6, 7]);
    assert_eq!(pool.total_count(), 7);
    assert_eq!(pool.alive_count(), 3);
}

#[test]
fn alive_count_never_reads_negative() {
    let mut pool = KeylessConnectionPool::new(10, 2);
    pool.connection_exited(&ConnectionTicket { id: 1, generation: 0 }, ConnectionEnd::Finished);
    assert_eq!(pool.alive_count(), 0);
    let reaction = pool.react(PoolEvent::ConnectionClosed(1));
    assert_eq!(reaction.created.len(), 2);
}

#[test]
fn pool_above_the_floor_is_left_alone() {
    let mut pool = KeylessConnectionPool::new(10, 2);
    pool.check_create_connection(0, 5);
    assert_eq!(pool.alive_count(), 5);
    pool.connection_exited(&ConnectionTicket { id: 1, generation: 0 }, ConnectionEnd::Finished);
    let reaction = pool.react(PoolEvent::ConnectionClosed(1));
    assert!(reaction.created.is_empty());
    assert_eq!(pool.alive_count(), 4);
}

#[test]
fn every_end_of_a_connection_counts_the_same() {
    let ends = [
        ConnectionEnd::ConnectFailed,
        ConnectionEnd::RunFailed,
        ConnectionEnd::Finished,
        ConnectionEnd::Cancelled,
    ];
    let (mut pool, tickets) = started(10, 4);
    for (gone, (ticket, end)) in tickets.iter().zip(ends).enumerate() {
        assert_eq!(pool.connection_exited(ticket, end), ticket.id);
        assert_eq!(pool.alive_count(), 3 - gone);
        assert_eq!(pool.total_count(), 4);
    }
    let reaction = pool.react(PoolEvent::ConnectionClosed(1));
    assert_eq!(reaction.created.len(), 4);
    assert_eq!(pool.alive_count(), 4);
}

#[test]
fn sizing_needs_the_floor_below_the_ceiling() {
    let sizing = PoolSizing::new(10, 2).expect("a sizing");
    assert_eq!(sizing.max_connection(), 10);
    assert_eq!(sizing.min_connection(), 2);
    assert!(PoolSizing::new(0, 0).is_some());
    assert!(PoolSizing::new(3, 3).is_some());
    assert!(PoolSizing::new(2, 3).is_none());
    assert!(PoolSizing::new(0, 1).is_none());
}

#[test]
fn sizing_needs_a_ceiling_that_can_be_counted() {
    let most = isize::MAX as usize;
    assert!(PoolSizing::new(most, 0).is_some());
    assert!(PoolSizing::new(most + 1, 0).is_none());
    assert!(PoolSizing::new(usize::MAX, usize::MAX).is_none());
}

#[test]
fn pool_of_a_sizing_has_created_nothing() {
    let mut pool = KeylessConnectionPool::with_sizing(PoolSizing::new(6, 3).unwrap());
    assert_eq!(pool.max_connection(), 6);
    assert_eq!(pool.min_connection(), 3);
    assert_eq!(pool.alive_count(), 0);
    assert_eq!(pool.connection_id(), 0);
    assert_eq!(pool.react(PoolEvent::Started).created.len(), 3);
}

#[test]
fn try_react_reacts_while_identities_are_left() {
    let mut pool = KeylessConnectionPool::new(10, 2);
    let reaction = pool.try_react(PoolEvent::Started).expect("a reaction");
    assert_eq!(reaction.created.len(), 2);
    assert_eq!(pool.alive_count(), 2);
    let reaction = pool
        .try_react(PoolEvent::Command(KeylessPoolCmd::Close))
        .expect("a reaction");
    assert!(reaction.stopped);
    assert_eq!(reaction.drain.unwrap().generation, 0);
}
