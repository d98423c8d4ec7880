//! The backend that stands in front of one pool: it keeps the current set of
//! peers, follows one discovery source, and can be prepared anew from another
//! configuration while its statistics live on.

use crate::cancel::CancelSlot;
use crate::peers::{snapshot, stored, valid_peers, PeerSet, PeerSlot, WeightedPeer};
use crate::pool::{KeylessConnectionPool, KeylessPoolCmd, PoolSizing, PoolView};
use crate::shared::share;
use futures_util::future::AbortHandle;
use std::sync::Arc;
use vstd::prelude::*;

verus! {

/// The configuration of a keyless backend over TCP.
#[derive(Debug)]
pub struct KeylessTcpBackendConfig {
    /// The name of the backend.
    pub name: String,
    /// The name of the discovery source that reports its peers.
    pub discover: String,
    /// What the backend asks of that source, in the source's own terms.
    pub discover_data: String,
    /// How its pool is sized.
    pub pool_sizing: PoolSizing,
}

/// The configuration of a backend of any kind.
#[derive(Debug)]
pub enum AnyBackendConfig {
    /// That of a keyless backend over TCP.
    KeylessTcp(KeylessTcpBackendConfig),
    /// That of a backend of another kind, of which only the name matters here.
    Other(String),
}

/// Why a backend could not be prepared.
#[derive(Clone, Copy, Debug, PartialEq, Eq)]
pub enum BackendError {
    /// No discovery source has the name that the configuration gives.
    DiscoverNotFound,
    /// The discovery source refused what the configuration asks of it.
    DiscoverRegisterFailed,
    /// The configuration is that of a backend of another kind.
    InvalidConfigType,
}

impl BackendError {
    /// The text of an error.
    pub open spec fn text(self) -> Seq<char> {
        match self {
            BackendError::DiscoverNotFound => "no such discover"@,
            BackendError::DiscoverRegisterFailed => "failed to register to discover"@,
            BackendError::InvalidConfigType => "invalid backend config type"@,
        }
    }

    /// The text of the error, for whoever reports it.
    pub fn message(&self) -> (text: &'static str)
        ensures
            text@ == self.text(),
    {
        match self {
            BackendError::DiscoverNotFound => "no such discover",
            BackendError::DiscoverRegisterFailed => "failed to register to discover",
            BackendError::InvalidConfigType => "invalid backend config type",
        }
    }
}

/// How the attempt went to register with the discovery source of a
/// configuration.
pub enum DiscoverRegistration {
    /// No discovery source has that name.
    NoSuchDiscover,
    /// The source refused to register what was asked.
    RegisterFailed,
    /// The source will report its peers to a new task, which this handle
    /// aborts.
    Registered(AbortHandle),
}

impl DiscoverRegistration {
    /// The error that a registration amounts to, if it failed.
    pub open spec fn error(self) -> Option<BackendError> {
        match self {
            DiscoverRegistration::NoSuchDiscover => Some(BackendError::DiscoverNotFound),
            DiscoverRegistration::RegisterFailed => Some(BackendError::DiscoverRegisterFailed),
            DiscoverRegistration::Registered(_) => None,
        }
    }
}

/// A keyless backend over TCP with peers at addresses of type `A` and
/// statistics of type `S`.
pub struct KeylessTcpBackend<A, S> {
    config: KeylessTcpBackendConfig,
    stats: Arc<S>,
    peer_addrs: PeerSlot<A>,
    discover_handle: CancelSlot,
}

/// What a backend holds.
pub struct BackendView<A, S> {
    /// The configuration that it was prepared from.
    pub config: KeylessTcpBackendConfig,
    /// Its statistics, which outlive it where it is prepared anew.
    pub stats: Arc<S>,
    /// The peers that were published last, if any were.
    pub peers: Option<Seq<WeightedPeer<A>>>,
    /// The handle of the task that follows the discovery source.
    pub discover_handle: Option<AbortHandle>,
}

impl<A, S> View for KeylessTcpBackend<A, S> {
    type V = BackendView<A, S>;

    closed spec fn view(&self) -> BackendView<A, S> {
        BackendView {
            config: self.config,
            stats: self.stats,
            peers: self.peer_addrs@,
            discover_handle: self.discover_handle@,
        }
    }
}

impl<A, S> BackendView<A, S> {
    /// A backend as it is when its first discovery task was registered: no
    /// peers are published yet.
    pub open spec fn fresh(
        config: KeylessTcpBackendConfig,
        stats: Arc<S>,
        handle: AbortHandle,
    ) -> BackendView<A, S> {
        BackendView { config, stats, peers: None, discover_handle: Some(handle) }
    }

    /// What preparing a backend gives: the error of the registration where it
    /// failed, and a fresh backend otherwise.
    pub open spec fn prepared(
        config: KeylessTcpBackendConfig,
        stats: Arc<S>,
        registration: DiscoverRegistration,
    ) -> Result<BackendView<A, S>, BackendError> {
        match registration {
            DiscoverRegistration::NoSuchDiscover => Err(BackendError::DiscoverNotFound),
            DiscoverRegistration::RegisterFailed => Err(BackendError::DiscoverRegisterFailed),
            DiscoverRegistration::Registered(handle) => Ok(Self::fresh(config, stats, handle)),
        }
    }

    /// What preparing a backend from a configuration of any kind gives, with
    /// the statistics of this one.
    pub open spec fn reloaded(
        self,
        config: AnyBackendConfig,
        registration: DiscoverRegistration,
    ) -> Result<BackendView<A, S>, BackendError> {
        match config {
            AnyBackendConfig::KeylessTcp(c) => Self::prepared(c, self.stats, registration),
            AnyBackendConfig::Other(_) => Err(BackendError::InvalidConfigType),
        }
    }

    /// The backend after discovery reported: a list of peers replaces what was
    /// published by the set built from it, a failure changes nothing.
    pub open spec fn discovered(self, data: Option<Seq<WeightedPeer<A>>>) -> BackendView<A, S> {
        match data {
            Some(raw) => BackendView {
                peers: stored(
                    self.peers,
                    if valid_peers(raw).len() == 0 {
                        None
                    } else {
                        Some(valid_peers(raw))
                    },
                ),
                ..self
            },
            None => self,
        }
    }
}

/// The view of what was prepared.
pub open spec fn prepared_view<A, S>(
    prepared: Result<KeylessTcpBackend<A, S>, BackendError>,
) -> Result<BackendView<A, S>, BackendError> {
    match prepared {
        Ok(backend) => Ok(backend@),
        Err(e) => Err(e),
    }
}

/// The configuration of a keyless backend over TCP that `config` holds, or the
/// error that it is of another kind.
pub fn keyless_tcp_config(config: AnyBackendConfig) -> (found: Result<
    KeylessTcpBackendConfig,
    BackendError,
>)
    ensures
        found == match config {
            AnyBackendConfig::KeylessTcp(c) => Ok::<KeylessTcpBackendConfig, BackendError>(c),
            AnyBackendConfig::Other(_) => Err(BackendError::InvalidConfigType),
        },
{
    match config {
        AnyBackendConfig::KeylessTcp(c) => Ok(c),
        AnyBackendConfig::Other(_) => Err(BackendError::InvalidConfigType),
    }
}

impl<A: Copy, S> KeylessTcpBackend<A, S> {
    /// Builds the backend of `config` with the statistics `stats`, following
    /// the discovery source as `registration` says. Where the registration
    /// failed there is no backend.
    pub fn new_obj(
        config: KeylessTcpBackendConfig,
        stats: Arc<S>,
        registration: DiscoverRegistration,
    ) -> (built: Result<Self, BackendError>)
        ensures
            prepared_view(built) == BackendView::<A, S>::prepared(config, stats, registration),
    {
        let mut backend = KeylessTcpBackend {
            config,
            stats,
            peer_addrs: PeerSlot::new(),
            discover_handle: CancelSlot::new(),
        };
        match backend.update_discover(registration) {
            Ok(()) => Ok(backend),
            Err(e) => Err(e),
        }
    }

    /// Prepares a backend for the first time, with statistics of its own.
    pub fn prepare_initial(
        config: KeylessTcpBackendConfig,
        stats: S,
        registration: DiscoverRegistration,
    ) -> (built: Result<Self, BackendError>)
        ensures
            built is Ok <==> registration is Registered,
            built matches Ok(backend) ==> *backend@.stats == stats && prepared_view(built)
                == BackendView::<A, S>::prepared(config, backend@.stats, registration),
            built matches Err(e) ==> Some(e) == registration.error(),
    {
        Self::new_obj(config, Arc::new(stats), registration)
    }

    /// Prepares the backend that takes the place of this one under another
    /// configuration. It has the statistics of this one and nothing else of it:
    /// no peers yet, a discovery task of its own, and a pool of its own.
    pub fn prepare_reload(
        &self,
        config: KeylessTcpBackendConfig,
        registration: DiscoverRegistration,
    ) -> (built: Result<Self, BackendError>)
        ensures
            prepared_view(built) == BackendView::<A, S>::prepared(
                config,
                self@.stats,
                registration,
            ),
    {
        Self::new_obj(config, share(&self.stats), registration)
    }

    /// Prepares the backend that takes the place of this one under a
    /// configuration of any kind: one of another kind is refused, whatever the
    /// registration says. This backend stays as it is either way. Whoever
    /// would rather not register for a configuration that is refused asks
    /// `keyless_tcp_config` first.
    pub fn _lock_safe_reload(
        &self,
        config: AnyBackendConfig,
        registration: DiscoverRegistration,
    ) -> (built: Result<Self, BackendError>)
        ensures
            prepared_view(built) == self@.reloaded(config, registration),
    {
        match keyless_tcp_config(config) {
            Ok(c) => self.prepare_reload(c, registration),
            Err(e) => Err(e),
        }
    }

    /// Takes over the task that follows the discovery source. Where the
    /// registration failed, the error is returned and the backend stays as it
    /// is. Otherwise the handle of the new task takes the place of the old one,
    /// whose task is aborted.
    pub fn update_discover(&mut self, registration: DiscoverRegistration) -> (updated: Result<
        (),
        BackendError,
    >)
        ensures
            updated is Ok <==> registration is Registered,
            updated matches Err(e) ==> Some(e) == registration.error() && final(self)@ == old(
                self,
            )@,
            registration matches DiscoverRegistration::Registered(handle) ==> final(self)@ == (
            BackendView { discover_handle: Some(handle), ..old(self)@ }),
    {
        match registration {
            DiscoverRegistration::NoSuchDiscover => Err(BackendError::DiscoverNotFound),
            DiscoverRegistration::RegisterFailed => Err(BackendError::DiscoverRegisterFailed),
            DiscoverRegistration::Registered(handle) => {
                self.discover_handle.replace(handle);
                Ok(())
            },
        }
    }

    /// Takes what the discovery source reported. A list of peers is built into
    /// a set, which is published in place of the old one, and the pool is to be
    /// told to update its peers. A report of failure changes nothing.
    pub fn discover_changed(&mut self, data: Option<&Vec<WeightedPeer<A>>>) -> (command: Option<
        KeylessPoolCmd,
    >)
        ensures
            final(self)@ == old(self)@.discovered(
                match data {
                    Some(raw) => Some(raw@),
                    None => None,
                },
            ),
            command == match data {
                Some(_) => Some(KeylessPoolCmd::UpdatePeers),
                None => None,
            },
    {
        match data {
            Some(raw) => {
                let built = match PeerSet::build(raw) {
                    Some(set) => Some(Arc::new(set)),
                    None => None,
                };
                self.peer_addrs.store(built);
                Some(KeylessPoolCmd::UpdatePeers)
            },
            None => None,
        }
    }

    /// A supervisor for the pool of the backend, sized as the configuration
    /// says, that has created nothing yet: whatever a backend before this one
    /// had of connections is no concern of it.
    pub fn new_pool(&self) -> (pool: KeylessConnectionPool)
        ensures
            pool@ == PoolView::sized(self@.config.pool_sizing),
            pool@.inv(),
    {
        KeylessConnectionPool::with_sizing(self.config.pool_sizing)
    }

    /// The name of the backend.
    pub fn name(&self) -> (name: &String)
        ensures
            *name == self@.config.name,
    {
        &self.config.name
    }

    /// The name of the discovery source that the backend follows.
    pub fn discover(&self) -> (name: &String)
        ensures
            *name == self@.config.discover,
    {
        &self.config.discover
    }

    /// What the backend asks of its discovery source.
    pub fn discover_data(&self) -> (data: &String)
        ensures
            *data == self@.config.discover_data,
    {
        &self.config.discover_data
    }

    /// The statistics of the backend.
    pub fn stats(&self) -> (stats: &Arc<S>)
        ensures
            *stats == self@.stats,
    {
        &self.stats
    }

    /// The set of peers that was published last, if there is one. Whoever
    /// holds it keeps it as it is, whatever is published later.
    pub fn peers(&self) -> (current: Option<Arc<PeerSet<A>>>)
        ensures
            snapshot(current) == self@.peers,
    {
        self.peer_addrs.load()
    }

    /// Aborts the task that follows the discovery source, if there is one.
    pub fn abort_discover(&mut self) -> (aborted: bool)
        ensures
            aborted == old(self)@.discover_handle is Some,
            final(self)@ == (BackendView { discover_handle: None, ..old(self)@ }),
    {
        self.discover_handle.abort()
    }
}

} // verus!
