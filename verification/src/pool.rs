//! The supervisor of an elastic pool of upstream connections.
//!
//! The supervisor never touches a connection. It reacts to one event at a time
//! and answers with what has to be done: which connections to start, and
//! whether the connections of the current drain generation are told to retire.
//! Whoever drives it performs that answer and hands back the next event.

use crate::stats::{PoolStats, StatsView};
use crate::timing::{duration_from_secs, seconds};
use std::time::Duration;
use vstd::prelude::*;

verus! {

/// Seconds that a connection is given to retire once it is told to drain.
pub const DRAIN_GRACE_SECS: u64 = 30;

/// The span of time that a drain signal carries.
pub open spec fn drain_grace() -> Duration {
    seconds(DRAIN_GRACE_SECS)
}

/// How a pool is sized: the number of alive connections that it restores, and
/// the number that it never means to exceed. The first is at most the second,
/// and the second fits the alive counter, which is a signed machine word.
#[derive(Clone, Copy, Debug, PartialEq, Eq)]
pub struct PoolSizing {
    min_connection: usize,
    max_connection: usize,
}

/// Whether a pool can be sized with this floor and this ceiling.
pub open spec fn sizing_ok(max_connection: int, min_connection: int) -> bool {
    0 <= min_connection <= max_connection <= isize::MAX
}

impl PoolSizing {
    #[verifier::type_invariant]
    spec fn well_formed(self) -> bool {
        sizing_ok(self.max_connection as int, self.min_connection as int)
    }

    /// The number of alive connections that the pool restores.
    pub closed spec fn min(self) -> nat {
        self.min_connection as nat
    }

    /// The number of alive connections that the pool never means to exceed.
    pub closed spec fn max(self) -> nat {
        self.max_connection as nat
    }

    /// The sizing with this ceiling and this floor, if a pool can be sized so.
    pub fn new(max_connection: usize, min_connection: usize) -> (sizing: Option<PoolSizing>)
        ensures
            sizing is Some <==> sizing_ok(max_connection as int, min_connection as int),
            sizing matches Some(s) ==> s.max() == max_connection && s.min() == min_connection,
    {
        if min_connection <= max_connection && max_connection <= isize::MAX as usize {
            Some(PoolSizing { min_connection, max_connection })
        } else {
            None
        }
    }

    /// The number of alive connections that the pool restores.
    pub fn min_connection(&self) -> (min: usize)
        ensures
            min == self.min(),
            sizing_ok(self.max() as int, self.min() as int),
    {
        proof {
            use_type_invariant(self);
        }
        self.min_connection
    }

    /// The number of alive connections that the pool never means to exceed.
    pub fn max_connection(&self) -> (max: usize)
        ensures
            max == self.max(),
            sizing_ok(self.max() as int, self.min() as int),
    {
        proof {
            use_type_invariant(self);
        }
        self.max_connection
    }
}

/// What the holder of a pool handle can ask of the supervisor.
#[derive(Clone, Copy, Debug, PartialEq, Eq)]
pub enum KeylessPoolCmd {
    /// The set of peers may have changed: retire the connections made for the
    /// old one.
    UpdatePeers,
    /// Stop creating connections and retire all of them.
    Close,
}

/// What the supervisor waits for.
#[derive(Clone, Copy, Debug, PartialEq, Eq)]
pub enum PoolEvent {
    /// The supervisor was started.
    Started,
    /// A command arrived from a pool handle.
    Command(KeylessPoolCmd),
    /// Every pool handle is gone: no command will arrive any more.
    CommandsClosed,
    /// The connection with this identity reported that it has terminated.
    ConnectionClosed(u64),
}

/// How a connection came to its end.
#[derive(Clone, Copy, Debug, PartialEq, Eq)]
pub enum ConnectionEnd {
    /// It could not be connected.
    ConnectFailed,
    /// It ran, and ended with an error.
    RunFailed,
    /// It ran until it had nothing more to do, or was told to retire.
    Finished,
    /// Its task was given up before it came to an end of its own.
    Cancelled,
}

/// What a new connection is started with.
#[derive(Clone, Copy, Debug, PartialEq, Eq)]
pub struct ConnectionTicket {
    /// The identity of the connection, given to no other connection.
    pub id: u64,
    /// The drain generation that the connection listens to.
    pub generation: u64,
}

/// A connection ticket as mathematical integers.
pub struct TicketView {
    /// The identity of the connection.
    pub id: nat,
    /// The drain generation that the connection listens to.
    pub generation: nat,
}

impl View for ConnectionTicket {
    type V = TicketView;

    open spec fn view(&self) -> TicketView {
        TicketView { id: self.id as nat, generation: self.generation as nat }
    }
}

/// The views of a row of tickets.
pub open spec fn ticket_views(tickets: Seq<ConnectionTicket>) -> Seq<TicketView> {
    tickets.map_values(|t: ConnectionTicket| t@)
}

/// The order to retire, sent to the connections of one drain generation.
#[derive(Clone, Copy, Debug, PartialEq, Eq)]
pub struct DrainBroadcast {
    /// The generation whose connections receive the signal.
    pub generation: u64,
    /// The time that they are given to terminate.
    pub grace: Duration,
}

/// A drain broadcast with its generation as a mathematical integer.
pub struct DrainView {
    /// The generation whose connections receive the signal.
    pub generation: nat,
    /// The time that they are given to terminate.
    pub grace: Duration,
}

impl DrainView {
    /// A drain signal is received by the connections that listen to its
    /// generation, and by no other.
    pub open spec fn reaches(self, ticket: TicketView) -> bool {
        ticket.generation == self.generation
    }
}

impl View for DrainBroadcast {
    type V = DrainView;

    open spec fn view(&self) -> DrainView {
        DrainView { generation: self.generation as nat, grace: self.grace }
    }
}

impl DrainBroadcast {
    /// Whether the connection started with `ticket` receives this signal.
    pub fn reaches(&self, ticket: &ConnectionTicket) -> (reached: bool)
        ensures
            reached == self@.reaches(ticket@),
    {
        ticket.generation == self.generation
    }
}

/// The view of an optional drain broadcast.
pub open spec fn drain_view(drain: Option<DrainBroadcast>) -> Option<DrainView> {
    match drain {
        Some(d) => Some(d@),
        None => None,
    }
}

/// What the supervisor answers to one event.
#[derive(Debug)]
pub struct PoolReaction {
    /// The drain signal to send, if any. It goes out before the connections of
    /// `created` are started.
    pub drain: Option<DrainBroadcast>,
    /// The connections to start, in the order of their identities.
    pub created: Vec<ConnectionTicket>,
    /// Whether the supervisor has stopped: it then reacts to nothing any more.
    pub stopped: bool,
}

/// A reaction over mathematical values.
pub struct ReactionView {
    /// The drain signal to send, if any.
    pub drain: Option<DrainView>,
    /// The connections to start, in the order of their identities.
    pub created: Seq<TicketView>,
    /// Whether the supervisor has stopped.
    pub stopped: bool,
}

impl View for PoolReaction {
    type V = ReactionView;

    open spec fn view(&self) -> ReactionView {
        ReactionView {
            drain: drain_view(self.drain),
            created: ticket_views(self.created@),
            stopped: self.stopped,
        }
    }
}

/// The state of a supervisor over mathematical integers.
pub struct PoolView {
    /// The number of alive connections that the supervisor restores.
    pub min_connection: nat,
    /// The number of alive connections that it never means to exceed.
    pub max_connection: nat,
    /// The identity given to the connection created last, zero before the first.
    pub connection_id: nat,
    /// The drain generation that new connections listen to.
    pub drain_generation: nat,
    /// Whether the supervisor still reacts to events.
    pub running: bool,
    /// The counters of the pool.
    pub stats: StatsView,
}

/// How many connections are missing where `alive` of them are there and
/// `target` are wanted.
pub open spec fn missing(alive: int, target: int) -> nat {
    if alive < target {
        (target - alive) as nat
    } else {
        0
    }
}

impl PoolView {
    /// What holds of every supervisor: the sizing bounds are in order, the
    /// upper one fits the alive counter, and every identity given out was
    /// counted as a created connection.
    pub open spec fn inv(self) -> bool {
        &&& self.min_connection <= self.max_connection
        &&& self.max_connection <= isize::MAX
        &&& self.stats.total == self.connection_id
    }

    /// A supervisor that has created nothing yet.
    pub open spec fn initial(max_connection: nat, min_connection: nat) -> PoolView {
        PoolView {
            min_connection,
            max_connection,
            connection_id: 0,
            drain_generation: 0,
            running: true,
            stats: StatsView { total: 0, alive: 0 },
        }
    }

    /// A supervisor of the given sizing that has created nothing yet.
    pub open spec fn sized(sizing: PoolSizing) -> PoolView {
        PoolView::initial(sizing.max(), sizing.min())
    }

    /// The ticket of the connection that is created next.
    pub open spec fn next_ticket(self) -> TicketView {
        TicketView { id: self.connection_id + 1, generation: self.drain_generation }
    }

    /// The tickets of the next `n` connections: consecutive identities, all of
    /// the current drain generation.
    pub open spec fn tickets(self, n: nat) -> Seq<TicketView> {
        Seq::new(
            n,
            |i: int|
                TicketView {
                    id: (self.connection_id + 1 + i) as nat,
                    generation: self.drain_generation,
                },
        )
    }

    /// The state after `n` connections were created.
    pub open spec fn create_connections(self, n: nat) -> PoolView {
        PoolView {
            connection_id: self.connection_id + n,
            stats: self.stats.after_adds(n),
            ..self
        }
    }

    /// The state after one connection has terminated.
    pub open spec fn connection_exited(self) -> PoolView {
        PoolView { stats: self.stats.after_del(), ..self }
    }

    /// The drain signal for the connections of the current generation.
    pub open spec fn drain_signal(self) -> DrainView {
        DrainView { generation: self.drain_generation, grace: drain_grace() }
    }

    /// How many connections are missing to the floor.
    pub open spec fn below_floor(self) -> nat {
        missing(self.stats.alive_count(), self.min_connection as int)
    }

    /// Whether the supervisor can react to `event`: the identities that the
    /// reaction gives out, or the generation that it moves on to, have to fit
    /// their machine words. A supervisor can always be closed, and one that
    /// has stopped can react to everything, since it does nothing.
    pub open spec fn can_react(self, event: PoolEvent) -> bool {
        if !self.running {
            true
        } else {
            match event {
                PoolEvent::Started => self.connection_id + self.below_floor() <= u64::MAX,
                PoolEvent::Command(KeylessPoolCmd::UpdatePeers) => self.drain_generation
                    < u64::MAX,
                PoolEvent::Command(KeylessPoolCmd::Close) => true,
                PoolEvent::CommandsClosed => true,
                PoolEvent::ConnectionClosed(_) => self.connection_id + self.below_floor()
                    <= u64::MAX,
            }
        }
    }

    /// The state after the supervisor has reacted to `event`.
    pub open spec fn react(self, event: PoolEvent) -> PoolView {
        if !self.running {
            self
        } else {
            match event {
                PoolEvent::Started => self.create_connections(self.below_floor()),
                PoolEvent::Command(KeylessPoolCmd::UpdatePeers) => PoolView {
                    drain_generation: self.drain_generation + 1,
                    ..self
                },
                PoolEvent::Command(KeylessPoolCmd::Close) => PoolView { running: false, ..self },
                PoolEvent::CommandsClosed => PoolView { running: false, ..self },
                PoolEvent::ConnectionClosed(_) => self.create_connections(self.below_floor()),
            }
        }
    }

    /// What the supervisor answers to `event`.
    pub open spec fn reaction(self, event: PoolEvent) -> ReactionView {
        if !self.running {
            ReactionView { drain: None, created: Seq::empty(), stopped: true }
        } else {
            match event {
                PoolEvent::Started => ReactionView {
                    drain: None,
                    created: self.tickets(self.below_floor()),
                    stopped: false,
                },
                PoolEvent::Command(KeylessPoolCmd::UpdatePeers) => ReactionView {
                    drain: Some(self.drain_signal()),
                    created: Seq::empty(),
                    stopped: false,
                },
                PoolEvent::Command(KeylessPoolCmd::Close) => ReactionView {
                    drain: Some(self.drain_signal()),
                    created: Seq::empty(),
                    stopped: true,
                },
                PoolEvent::CommandsClosed => ReactionView {
                    drain: None,
                    created: Seq::empty(),
                    stopped: true,
                },
                PoolEvent::ConnectionClosed(_) => ReactionView {
                    drain: None,
                    created: self.tickets(self.below_floor()),
                    stopped: false,
                },
            }
        }
    }
}

/// The supervisor of a pool of upstream connections.
#[derive(Debug)]
pub struct KeylessConnectionPool {
    max_connection: usize,
    min_connection: usize,
    stats: PoolStats,
    connection_id: u64,
    drain_generation: u64,
    running: bool,
}

impl View for KeylessConnectionPool {
    type V = PoolView;

    closed spec fn view(&self) -> PoolView {
        PoolView {
            min_connection: self.min_connection as nat,
            max_connection: self.max_connection as nat,
            connection_id: self.connection_id as nat,
            drain_generation: self.drain_generation as nat,
            running: self.running,
            stats: self.stats@,
        }
    }
}

impl KeylessConnectionPool {
    /// A supervisor that keeps `min_connection` connections alive and never
    /// means to hold more than `max_connection`. The upper bound has to fit the
    /// alive counter, which is a signed machine word.
    pub fn new(max_connection: usize, min_connection: usize) -> (pool: Self)
        requires
            min_connection <= max_connection,
            max_connection <= isize::MAX,
        ensures
            pool@ == PoolView::initial(max_connection as nat, min_connection as nat),
            pool@.inv(),
    {
        KeylessConnectionPool {
            max_connection,
            min_connection,
            stats: PoolStats::default(),
            connection_id: 0,
            drain_generation: 0,
            running: true,
        }
    }

    /// A supervisor of the given sizing.
    pub fn with_sizing(sizing: PoolSizing) -> (pool: Self)
        ensures
            pool@ == PoolView::sized(sizing),
            pool@.inv(),
    {
        let max_connection = sizing.max_connection();
        let min_connection = sizing.min_connection();
        Self::new(max_connection, min_connection)
    }

    /// The state of a supervisor always fits its machine words.
    pub proof fn lemma_view_bounds(&self)
        ensures
            self@.min_connection <= usize::MAX,
            self@.max_connection <= usize::MAX,
            self@.connection_id <= u64::MAX,
            self@.drain_generation <= u64::MAX,
            0 <= self@.stats.total <= u64::MAX,
            isize::MIN <= self@.stats.alive <= isize::MAX,
    {
        self.stats.lemma_view_bounds();
    }

    /// The number of alive connections that the supervisor restores.
    pub fn min_connection(&self) -> (min: usize)
        ensures
            min == self@.min_connection,
    {
        self.min_connection
    }

    /// The number of alive connections that the supervisor never means to
    /// exceed.
    pub fn max_connection(&self) -> (max: usize)
        ensures
            max == self@.max_connection,
    {
        self.max_connection
    }

    /// The number of alive connections, never negative.
    pub fn alive_count(&self) -> (alive: usize)
        ensures
            alive == self@.stats.alive_count(),
    {
        self.stats.alive_count()
    }

    /// The number of connections ever created.
    pub fn total_count(&self) -> (total: u64)
        ensures
            total == self@.stats.total,
    {
        self.stats.total_count()
    }

    /// The identity of the connection created last, zero before the first.
    pub fn connection_id(&self) -> (id: u64)
        ensures
            id == self@.connection_id,
    {
        self.connection_id
    }

    /// The drain generation that new connections listen to.
    pub fn drain_generation(&self) -> (generation: u64)
        ensures
            generation == self@.drain_generation,
    {
        self.drain_generation
    }

    /// Whether the supervisor still reacts to events.
    pub fn is_running(&self) -> (running: bool)
        ensures
            running == self@.running,
    {
        self.running
    }

    /// Whether the supervisor can react to `event`.
    pub fn can_react(&self, event: PoolEvent) -> (can: bool)
        ensures
            can == self@.can_react(event),
    {
        if !self.running {
            return true;
        }
        match event {
            PoolEvent::Started | PoolEvent::ConnectionClosed(_) => {
                let alive = self.stats.alive_count();
                if alive < self.min_connection {
                    (self.min_connection - alive) as u64 <= u64::MAX - self.connection_id
                } else {
                    true
                }
            },
            PoolEvent::Command(KeylessPoolCmd::UpdatePeers) => self.drain_generation < u64::MAX,
            PoolEvent::Command(KeylessPoolCmd::Close) => true,
            PoolEvent::CommandsClosed => true,
        }
    }

    /// Gives the next identity to a new connection of the current drain
    /// generation and counts it as alive, before anything is started.
    pub fn create_connection(&mut self) -> (ticket: ConnectionTicket)
        requires
            old(self)@.connection_id < u64::MAX,
        ensures
            final(self)@ == old(self)@.create_connections(1),
            ticket@ == old(self)@.next_ticket(),
    {
        proof {
            reveal_with_fuel(StatsView::after_adds, 2);
        }
        self.connection_id = self.connection_id + 1;
        self.stats.add_connection();
        ConnectionTicket { id: self.connection_id, generation: self.drain_generation }
    }

    /// Creates the connections that are missing where `alive` of them are
    /// there and `target` are wanted: none where `alive` is at least `target`.
    pub fn check_create_connection(&mut self, alive: usize, target: usize) -> (created: Vec<
        ConnectionTicket,
    >)
        requires
            old(self)@.connection_id + missing(alive as int, target as int) <= u64::MAX,
        ensures
            final(self)@ == old(self)@.create_connections(missing(alive as int, target as int)),
            ticket_views(created@) == old(self)@.tickets(missing(alive as int, target as int)),
    {
        let mut created: Vec<ConnectionTicket> = Vec::new();
        if alive < target {
            let wanted: usize = target - alive;
            let mut done: usize = 0;
            while done < wanted
                invariant
                    done <= wanted,
                    wanted == missing(alive as int, target as int),
                    old(self)@.connection_id + wanted <= u64::MAX,
                    self@ == old(self)@.create_connections(done as nat),
                    created@.len() == done,
                    ticket_views(created@) == old(self)@.tickets(done as nat),
                decreases wanted - done,
            {
                let ghost before = self@;
                let ghost tickets_before = created@;
                let ticket = self.create_connection();
                created.push(ticket);
                done = done + 1;
                proof {
                    reveal_with_fuel(StatsView::after_adds, 2);
                    assert(before.create_connections(1) == old(self)@.create_connections(
                        done as nat,
                    ));
                    assert(created@ == tickets_before.push(ticket));
                    assert forall|i: int| 0 <= i < done implies ticket_views(created@)[i] == old(
                        self,
                    )@.tickets(done as nat)[i] by {
                        if i < done - 1 {
                            assert(created@[i] == tickets_before[i]);
                            assert(ticket_views(tickets_before)[i] == old(self)@.tickets(
                                (done - 1) as nat,
                            )[i]);
                        }
                    }
                    assert(ticket_views(created@) =~= old(self)@.tickets(done as nat));
                }
            }
        }
        assert(ticket_views(created@) =~= old(self)@.tickets(
            missing(alive as int, target as int),
        ));
        created
    }

    /// Takes note that one connection has terminated, and returns the identity
    /// that it reports to the supervisor. How it ended makes no difference: a
    /// connection that failed is gone as one that finished is.
    pub fn connection_exited(&mut self, ticket: &ConnectionTicket, end: ConnectionEnd) -> (id: u64)
        ensures
            final(self)@ == old(self)@.connection_exited(),
            id == ticket.id,
    {
        self.stats.del_connection();
        ticket.id
    }

    /// Reacts to one event. A supervisor that has stopped answers nothing and
    /// stays as it is. A running one, on
    /// - its start or the report of a terminated connection: creates the
    ///   connections that are missing to the floor;
    /// - an update of the peers: tells the connections of the current drain
    ///   generation to retire and moves on to the next generation, and creates
    ///   nothing;
    /// - the order to close: tells the connections of the current drain
    ///   generation to retire, and stops;
    /// - the loss of its command source: stops.
    pub fn react(&mut self, event: PoolEvent) -> (reaction: PoolReaction)
        requires
            old(self)@.can_react(event),
        ensures
            final(self)@ == old(self)@.react(event),
            reaction@ == old(self)@.reaction(event),
            old(self)@.inv() ==> final(self)@.inv(),
    {
        if !self.running {
            let idle = PoolReaction { drain: None, created: Vec::new(), stopped: true };
            assert(idle@.created =~= Seq::empty());
            return idle;
        }
        match event {
            PoolEvent::Started | PoolEvent::ConnectionClosed(_) => {
                let alive = self.stats.alive_count();
                let created = self.check_create_connection(alive, self.min_connection);
                proof {
                    old(self).lemma_view_bounds();
                    old(self)@.stats.lemma_after_adds(old(self)@.below_floor());
                }
                PoolReaction { drain: None, created, stopped: false }
            },
            PoolEvent::Command(KeylessPoolCmd::UpdatePeers) => {
                let drain = DrainBroadcast {
                    generation: self.drain_generation,
                    grace: duration_from_secs(DRAIN_GRACE_SECS),
                };
                self.drain_generation = self.drain_generation + 1;
                let alive = self.stats.alive_count();
                let created = self.check_create_connection(alive, 0);
                let moved = PoolReaction { drain: Some(drain), created, stopped: false };
                assert(moved@.created =~= Seq::empty());
                moved
            },
            PoolEvent::Command(KeylessPoolCmd::Close) => {
                let drain = DrainBroadcast {
                    generation: self.drain_generation,
                    grace: duration_from_secs(DRAIN_GRACE_SECS),
                };
                self.running = false;
                let done = PoolReaction { drain: Some(drain), created: Vec::new(), stopped: true };
                assert(done@.created =~= Seq::empty());
                done
            },
            PoolEvent::CommandsClosed => {
                self.running = false;
                let done = PoolReaction { drain: None, created: Vec::new(), stopped: true };
                assert(done@.created =~= Seq::empty());
                done
            },
        }
    }

    /// Reacts to one event if the supervisor can, and does nothing otherwise.
    pub fn try_react(&mut self, event: PoolEvent) -> (reaction: Option<PoolReaction>)
        ensures
            reaction is Some <==> old(self)@.can_react(event),
            reaction matches Some(r) ==> r@ == old(self)@.reaction(event) && final(self)@ == old(
                self,
            )@.react(event),
            reaction is None ==> final(self)@ == old(self)@,
            old(self)@.inv() ==> final(self)@.inv(),
    {
        if self.can_react(event) {
            Some(self.react(event))
        } else {
            None
        }
    }
}

} // verus!
