use futures_util::future::AbortHandle;
use keyless_pool::backend::{
    keyless_tcp_config, AnyBackendConfig, BackendError, DiscoverRegistration, KeylessTcpBackend,
    KeylessTcpBackendConfig,
};
use keyless_pool::peers::WeightedPeer;
use keyless_pool::pool::{KeylessPoolCmd, PoolEvent, PoolSizing};
use std::sync::atomic::{AtomicU64, Ordering};
use std::sync::Arc;

type Backend = KeylessTcpBackend<u16, AtomicU64>;

fn config(name: &str) -> KeylessTcpBackendConfig {
    KeylessTcpBackendConfig {
        name: name.to_string(),
        discover: "dns".to_string(),
        discover_data: "keyless.example.net:2407".to_string(),
        pool_sizing: PoolSizing::new(10, 2).unwrap(),
    }
}

fn registered() -> (DiscoverRegistration, AbortHandle) {
    let (handle, _) = AbortHandle::new_pair();
    (DiscoverRegistration::Registered(handle.clone()), handle)
}

fn backend(name: &str) -> (Backend, AbortHandle) {
    let (registration, handle) = registered();
    let built = Backend::prepare_initial(config(name), AtomicU64::new(0), registration);
    (built.ok().expect("a backend"), handle)
}

#[test]
fn prepare_initial_gives_a_backend_without_peers() {
    let (backend, handle) = backend("kl");
    assert_eq!(backend.name(), "kl");
    assert_eq!(backend.discover(), "dns");
    assert_eq!(backend.discover_data(), "keyless.example.net:2407");
    assert!(backend.peers().is_none());
    assert_eq!(backend.stats().load(Ordering::Relaxed), 0);
    assert!(!handle.is_aborted());
}

#[test]
fn no_backend_without_its_discovery_source() {
    let built = Backend::prepare_initial(
        config("kl"),
        AtomicU64::new(0),
        DiscoverRegistration::NoSuchDiscover,
    );
    assert_eq!(built.err(), Some(BackendError::DiscoverNotFound));
    let built = Backend::new_obj(
        config("kl"),
        Arc::new(AtomicU64::new(0)),
        DiscoverRegistration::RegisterFailed,
    );
    assert_eq!(built.err(), Some(BackendError::DiscoverRegisterFailed));
}

#[test]
fn reload_keeps_the_statistics() {
    let (mut old, old_handle) = backend("kl");
    old.stats().fetch_add(41, Ordering::Relaxed);
    old.discover_changed(Some(&vec![WeightedPeer { addr: 1u16, weight: 1 }]));
    let (registration, new_handle) = registered();
    let new = old
        .prepare_reload(config("kl2"), registration)
        .ok()
        .expect("a backend");
    assert!(Arc::ptr_eq(old.stats(), new.stats()));
    new.stats().fetch_add(1, Ordering::Relaxed);
    assert_eq!(old.stats().load(Ordering::Relaxed), 42);
    assert_eq!(new.name(), "kl2");
    // the new backend starts without peers, the old one keeps its own
    assert!(new.peers().is_none());
    assert_eq!(old.peers().unwrap().len(), 1);
    // and the discovery task of the old one goes on
    assert!(!old_handle.is_aborted());
    assert!(!new_handle.is_aborted());
}

#[test]
fn reload_refuses_a_config_of_another_kind() {
    let (old, old_handle) = backend("kl");
    let (registration, new_handle) = registered();
    let built = old._lock_safe_reload(AnyBackendConfig::Other("stream".to_string()), registration);
    assert_eq!(built.err(), Some(BackendError::InvalidConfigType));
    assert_eq!(old.name(), "kl");
    assert!(!old_handle.is_aborted());
    assert!(!new_handle.is_aborted());
}

#[test]
fn reload_fails_where_the_registration_failed() {
    let (old, old_handle) = backend("kl");
    let built = old._lock_safe_reload(
        AnyBackendConfig::KeylessTcp(config("kl2")),
        DiscoverRegistration::NoSuchDiscover,
    );
    assert_eq!(built.err(), Some(BackendError::DiscoverNotFound));
    let built =
        old.prepare_reload(config("kl2"), DiscoverRegistration::RegisterFailed);
    assert_eq!(built.err(), Some(BackendError::DiscoverRegisterFailed));
    assert!(!old_handle.is_aborted());
}

#[test]
fn reload_accepts_a_keyless_tcp_config() {
    let (old, _) = backend("kl");
    let (registration, _) = registered();
    let new = old
        ._lock_safe_reload(AnyBackendConfig::KeylessTcp(config("kl2")), registration)
        .ok()
        .expect("a backend");
    assert_eq!(new.name(), "kl2");
    assert!(Arc::ptr_eq(old.stats(), new.stats()));
}

#[test]
fn keyless_tcp_config_is_told_from_the_others() {
    let found = keyless_tcp_config(AnyBackendConfig::KeylessTcp(config("kl")));
    assert_eq!(found.ok().map(|c| c.name), Some("kl".to_string()));
    let found = keyless_tcp_config(AnyBackendConfig::Other("x".to_string()));
    assert_eq!(found.err(), Some(BackendError::InvalidConfigType));
}

#[test]
fn update_discover_aborts_the_old_task() {
    let (mut backend, first) = backend("kl");
    let (registration, second) = registered();
    assert_eq!(backend.update_discover(registration), Ok(()));
    assert!(first.is_aborted());
    assert!(!second.is_aborted());
    let (registration, third) = registered();
    assert_eq!(backend.update_discover(registration), Ok(()));
    assert!(second.is_aborted());
    assert!(!third.is_aborted());
}

#[test]
fn failed_update_leaves_the_old_task_running() {
    let (mut backend, first) = backend("kl");
    assert_eq!(
        backend.update_discover(DiscoverRegistration::NoSuchDiscover),
        Err(BackendError::DiscoverNotFound)
    );
    assert_eq!(
        backend.update_discover(DiscoverRegistration::RegisterFailed),
        Err(BackendError::DiscoverRegisterFailed)
    );
    assert!(!first.is_aborted());
    // the slot still holds it
    assert!(backend.abort_discover());
    assert!(first.is_aborted());
    assert!(!backend.abort_discover());
}

#[test]
fn discovered_peers_are_published_and_the_pool_is_told() {
    let (mut backend, _) = backend("kl");
    let raw = vec![
        WeightedPeer { addr: 10u16, weight: 3 },
        WeightedPeer { addr: 11u16, weight: 0 },
        WeightedPeer { addr: 12u16, weight: 1 },
    ];
    assert_eq!(backend.discover_changed(Some(&raw)), Some(KeylessPoolCmd::UpdatePeers));
    let set = backend.peers().expect("a set");
    assert_eq!(set.len(), 2);
    assert_eq!(set.peers().len(), 2);
    assert_eq!(set.get(0), Some(WeightedPeer { addr: 10, weight: 3 }));
    assert_eq!(set.get(1), Some(WeightedPeer { addr: 12, weight: 1 }));
    // a failed report changes nothing
    assert_eq!(backend.discover_changed(None), None);
    assert_eq!(backend.peers().unwrap().len(), 2);
    // a list without a valid peer takes the set away
    let none = vec![WeightedPeer { addr: 10u16, weight: 0 }];
    assert_eq!(backend.discover_changed(Some(&none)), Some(KeylessPoolCmd::UpdatePeers));
    assert!(backend.peers().is_none());
}

#[test]
fn errors_have_their_text() {
    assert_eq!(BackendError::InvalidConfigType.message(), "invalid backend config type");
    assert_eq!(BackendError::DiscoverRegisterFailed.message(), "failed to register to discover");
    assert_eq!(BackendError::DiscoverNotFound.message(), "no such discover");
}

#[test]
fn every_backend_gets_a_pool_from_scratch() {
    let (old, _) = backend("kl");
    let mut old_pool = old.new_pool();
    assert_eq!(old_pool.max_connection(), 10);
    assert_eq!(old_pool.min_connection(), 2);
    assert_eq!(old_pool.react(PoolEvent::Started).created.len(), 2);
    old_pool.react(PoolEvent::Command(KeylessPoolCmd::UpdatePeers));
    assert_eq!(old_pool.alive_count(), 2);

    let mut other = config("kl2");
    other.pool_sizing = PoolSizing::new(4, 1).unwrap();
    let (registration, _) = registered();
    let new = old.prepare_reload(other, registration).ok().expect("a backend");
    let mut new_pool = new.new_pool();
    assert_eq!(new_pool.max_connection(), 4);
    assert_eq!(new_pool.min_connection(), 1);
    assert_eq!(new_pool.alive_count(), 0);
    assert_eq!(new_pool.total_count(), 0);
    assert_eq!(new_pool.connection_id(), 0);
    assert_eq!(new_pool.drain_generation(), 0);
    assert!(new_pool.is_running());
    assert_eq!(new_pool.react(PoolEvent::Started).created.len(), 1);
}
