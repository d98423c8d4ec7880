//! A pool together with the connections that are alive in it: what a run of
//! the supervisor does to them, and what holds after every such run.
//!
//! The supervisor itself keeps no list of its connections, only counters. The
//! fleet is the list that it does without. Everything here is specification
//! and proof.

use crate::pool::{DrainView, KeylessPoolCmd, PoolEvent, PoolView, TicketView, drain_grace};
use vstd::prelude::*;

verus! {

/// A connection that was started and has not terminated.
pub struct LiveConnection {
    /// The drain generation that it listens to.
    pub generation: nat,
    /// Whether it has been told to retire.
    pub drained: bool,
}

/// A supervisor and its live connections, by identity.
pub struct Fleet {
    /// The supervisor.
    pub pool: PoolView,
    /// The connections that are alive, by their identities.
    pub live: Map<nat, LiveConnection>,
}

/// What can happen to a fleet.
pub enum FleetStep {
    /// The supervisor reacts to an event.
    Event(PoolEvent),
    /// The connection of this identity terminates, for whatever reason.
    Exit(nat),
}

/// The live connections after a drain signal went out: those that listen to
/// its generation have been told to retire, the others know nothing of it.
pub open spec fn deliver(live: Map<nat, LiveConnection>, drain: Option<DrainView>) -> Map<
    nat,
    LiveConnection,
> {
    match drain {
        None => live,
        Some(signal) => Map::new(
            |id: nat| live.dom().contains(id),
            |id: nat|
                if signal.reaches(TicketView { id, generation: live[id].generation }) {
                    LiveConnection { generation: live[id].generation, drained: true }
                } else {
                    live[id]
                },
        ),
    }
}

/// The live connections after those of `tickets` were started.
pub open spec fn start_all(live: Map<nat, LiveConnection>, tickets: Seq<TicketView>) -> Map<
    nat,
    LiveConnection,
>
    decreases tickets.len(),
{
    if tickets.len() == 0 {
        live
    } else {
        start_all(live, tickets.drop_last()).insert(
            tickets.last().id,
            LiveConnection { generation: tickets.last().generation, drained: false },
        )
    }
}

impl Fleet {
    /// A new supervisor, with no connection yet.
    pub open spec fn initial(max_connection: nat, min_connection: nat) -> Fleet {
        Fleet { pool: PoolView::initial(max_connection, min_connection), live: Map::empty() }
    }

    /// The fleet after one step. The supervisor is handed only an event that
    /// it can react to, and only a live connection terminates.
    pub open spec fn step(self, step: FleetStep) -> Fleet {
        match step {
            FleetStep::Event(event) => {
                if self.pool.can_react(event) {
                    let reaction = self.pool.reaction(event);
                    Fleet {
                        pool: self.pool.react(event),
                        live: start_all(deliver(self.live, reaction.drain), reaction.created),
                    }
                } else {
                    self
                }
            },
            FleetStep::Exit(id) => {
                if self.live.dom().contains(id) {
                    Fleet { pool: self.pool.connection_exited(), live: self.live.remove(id) }
                } else {
                    self
                }
            },
        }
    }

    /// The fleet after a row of steps.
    pub open spec fn run(self, steps: Seq<FleetStep>) -> Fleet
        decreases steps.len(),
    {
        if steps.len() == 0 {
            self
        } else {
            self.run(steps.drop_last()).step(steps.last())
        }
    }

    /// Whether every live connection has been told to retire.
    pub open spec fn all_drained(self) -> bool {
        forall|id: nat| #[trigger] self.live.dom().contains(id) ==> self.live[id].drained
    }

    /// What holds of a fleet from its first step on:
    /// - the alive counter is the number of live connections, and at most the
    ///   upper sizing bound;
    /// - every live connection has an identity that was given out, and listens
    ///   to the current drain generation or an earlier one;
    /// - every live connection of an earlier generation has been told to
    ///   retire.
    pub open spec fn inv(self) -> bool {
        &&& self.pool.inv()
        &&& self.live.dom().finite()
        &&& self.pool.stats.alive == self.live.dom().len()
        &&& self.pool.stats.alive <= self.pool.max_connection
        &&& forall|id: nat| #[trigger]
            self.live.dom().contains(id) ==> {
                &&& 1 <= id <= self.pool.connection_id
                &&& self.live[id].generation <= self.pool.drain_generation
                &&& (self.live[id].generation < self.pool.drain_generation
                    ==> self.live[id].drained)
            }
    }
}

/// Starting the next `n` connections of a supervisor adds `n` live
/// connections with new identities, none of them told to retire, and leaves
/// the others as they are.
pub proof fn lemma_start_all(live: Map<nat, LiveConnection>, pool: PoolView, n: nat)
    requires
        live.dom().finite(),
        forall|id: nat| live.dom().contains(id) ==> id <= pool.connection_id,
    ensures
        start_all(live, pool.tickets(n)).dom().finite(),
        start_all(live, pool.tickets(n)).dom().len() == live.dom().len() + n,
        forall|id: nat| #[trigger]
            start_all(live, pool.tickets(n)).dom().contains(id) <==> (live.dom().contains(id)
                || pool.connection_id < id <= pool.connection_id + n),
        forall|id: nat| #[trigger]
            live.dom().contains(id) ==> start_all(live, pool.tickets(n))[id] == live[id],
        forall|id: nat|
            pool.connection_id < id <= pool.connection_id + n ==> #[trigger] start_all(
                live,
                pool.tickets(n),
            )[id] == (LiveConnection { generation: pool.drain_generation, drained: false }),
    decreases n,
{
    if n > 0 {
        let shorter = (n - 1) as nat;
        lemma_start_all(live, pool, shorter);
        assert(pool.tickets(n).drop_last() =~= pool.tickets(shorter));
        assert(pool.tickets(n).last() == (TicketView {
            id: pool.connection_id + n,
            generation: pool.drain_generation,
        }));
        let before = start_all(live, pool.tickets(shorter));
        assert(!before.dom().contains(pool.connection_id + n));
        assert(start_all(live, pool.tickets(n)) == before.insert(
            pool.connection_id + n,
            LiveConnection { generation: pool.drain_generation, drained: false },
        ));
    } else {
        assert(pool.tickets(n).len() == 0);
    }
}

/// A drain signal changes nothing but the mark of the connections that it
/// reaches.
pub proof fn lemma_deliver(live: Map<nat, LiveConnection>, drain: Option<DrainView>)
    ensures
        deliver(live, drain).dom() == live.dom(),
        forall|id: nat| #[trigger]
            live.dom().contains(id) ==> {
                &&& deliver(live, drain)[id].generation == live[id].generation
                &&& deliver(live, drain)[id].drained == (live[id].drained || (drain is Some
                    && drain->0.generation == live[id].generation))
            },
{
    assert(deliver(live, drain).dom() =~= live.dom());
}

/// Every step keeps the invariant of the fleet.
pub proof fn lemma_step_keeps_inv(fleet: Fleet, step: FleetStep)
    requires
        fleet.inv(),
    ensures
        fleet.step(step).inv(),
{
    match step {
        FleetStep::Event(event) => {
            if fleet.pool.can_react(event) {
                let reaction = fleet.pool.reaction(event);
                let told = deliver(fleet.live, reaction.drain);
                lemma_deliver(fleet.live, reaction.drain);
                if fleet.pool.running && (event is Started || event is ConnectionClosed) {
                    let n = fleet.pool.below_floor();
                    fleet.pool.stats.lemma_after_adds(n);
                    lemma_start_all(told, fleet.pool, n);
                } else {
                    assert(reaction.created =~= fleet.pool.tickets(0));
                    lemma_start_all(told, fleet.pool, 0);
                }
            }
        },
        FleetStep::Exit(id) => {},
    }
}

/// Every run keeps the invariant of the fleet.
pub proof fn lemma_run_keeps_inv(fleet: Fleet, steps: Seq<FleetStep>)
    requires
        fleet.inv(),
    ensures
        fleet.run(steps).inv(),
    decreases steps.len(),
{
    if steps.len() > 0 {
        lemma_run_keeps_inv(fleet, steps.drop_last());
        lemma_step_keeps_inv(fleet.run(steps.drop_last()), steps.last());
    }
}

/// A fleet that has just been set up satisfies the invariant.
pub proof fn lemma_initial_inv(max_connection: nat, min_connection: nat)
    requires
        min_connection <= max_connection <= isize::MAX,
    ensures
        Fleet::initial(max_connection, min_connection).inv(),
{
}

/// Every connection of a run has an identity of its own: a reaction gives out
/// identities that follow the last one given out before, each of them once.
pub proof fn lemma_identities_never_reused(pool: PoolView, event: PoolEvent)
    ensures
        pool.react(event).connection_id == pool.connection_id + pool.reaction(event).created.len(),
        forall|i: int|
            0 <= i < pool.reaction(event).created.len() ==> (#[trigger] pool.reaction(
                event,
            ).created[i]).id == pool.connection_id + 1 + i,
        forall|i: int, j: int|
            0 <= i < j < pool.reaction(event).created.len() ==> (#[trigger] pool.reaction(
                event,
            ).created[i]).id != (#[trigger] pool.reaction(event).created[j]).id,
{
}

/// What a run leaves of the fleet that it began with: the sizing bounds stay,
/// identities, the total of created connections and generations only grow, a
/// connection that is still there is the one that it was, and a connection
/// that came later listens to a generation of the run.
pub proof fn lemma_run_since(base: Fleet, steps: Seq<FleetStep>)
    requires
        base.inv(),
    ensures
        base.run(steps).inv(),
        base.run(steps).pool.min_connection == base.pool.min_connection,
        base.run(steps).pool.max_connection == base.pool.max_connection,
        base.run(steps).pool.connection_id >= base.pool.connection_id,
        base.run(steps).pool.stats.total >= base.pool.stats.total,
        base.run(steps).pool.drain_generation >= base.pool.drain_generation,
        base.run(steps).pool.running ==> base.pool.running,
        forall|id: nat| #[trigger]
            base.run(steps).live.dom().contains(id) ==> if id <= base.pool.connection_id {
                &&& base.live.dom().contains(id)
                &&& base.run(steps).live[id].generation == base.live[id].generation
                &&& base.live[id].drained ==> base.run(steps).live[id].drained
            } else {
                base.run(steps).live[id].generation >= base.pool.drain_generation
            },
    decreases steps.len(),
{
    if steps.len() > 0 {
        let before = base.run(steps.drop_last());
        lemma_run_since(base, steps.drop_last());
        lemma_step_since(before, steps.last());
    }
}

/// `lemma_run_since` for a single step.
pub proof fn lemma_step_since(base: Fleet, step: FleetStep)
    requires
        base.inv(),
    ensures
        base.step(step).inv(),
        base.step(step).pool.min_connection == base.pool.min_connection,
        base.step(step).pool.max_connection == base.pool.max_connection,
        base.step(step).pool.connection_id >= base.pool.connection_id,
        base.step(step).pool.drain_generation >= base.pool.drain_generation,
        base.step(step).pool.running ==> base.pool.running,
        forall|id: nat| #[trigger]
            base.step(step).live.dom().contains(id) ==> if id <= base.pool.connection_id {
                &&& base.live.dom().contains(id)
                &&& base.step(step).live[id].generation == base.live[id].generation
                &&& base.live[id].drained ==> base.step(step).live[id].drained
            } else {
                base.step(step).live[id].generation >= base.pool.drain_generation
            },
{
    lemma_step_keeps_inv(base, step);
    match step {
        FleetStep::Event(event) => {
            if base.pool.can_react(event) {
                let reaction = base.pool.reaction(event);
                let told = deliver(base.live, reaction.drain);
                lemma_deliver(base.live, reaction.drain);
                if base.pool.running && (event is Started || event is ConnectionClosed) {
                    lemma_start_all(told, base.pool, base.pool.below_floor());
                } else {
                    assert(reaction.created =~= base.pool.tickets(0));
                    lemma_start_all(told, base.pool, 0);
                }
            }
        },
        FleetStep::Exit(id) => {},
    }
}

/// Once the supervisor has reacted to the report of a terminated connection,
/// or to its start, at least the floor is alive again, whatever happened
/// before; and at no time is the alive counter negative, or other than the
/// number of live connections, or above the upper sizing bound.
pub proof fn lemma_floor_restored(fleet: Fleet, steps: Seq<FleetStep>)
    requires
        fleet.inv(),
    ensures
        fleet.run(steps).pool.stats.alive >= 0,
        fleet.run(steps).pool.stats.alive_count() == fleet.run(steps).live.dom().len(),
        fleet.run(steps).pool.stats.alive_count() <= fleet.pool.max_connection,
        steps.len() > 0 && (steps.last() matches FleetStep::Event(e) && (e is ConnectionClosed
            || e is Started) && fleet.run(steps.drop_last()).pool.can_react(e)) && fleet.run(
            steps.drop_last(),
        ).pool.running ==> fleet.run(steps).pool.stats.alive_count() >= fleet.pool.min_connection,
{
    lemma_run_since(fleet, steps);
    if steps.len() > 0 {
        let before = fleet.run(steps.drop_last());
        lemma_run_since(fleet, steps.drop_last());
        if before.pool.running {
            before.pool.stats.lemma_after_adds(before.pool.below_floor());
        }
    }
}

/// A supervisor that has stopped starts nothing: whatever happens, the live
/// connections only get fewer, those told to retire stay so, and one that has
/// terminated is gone for good.
pub proof fn lemma_stopped_run(fleet: Fleet, steps: Seq<FleetStep>)
    requires
        fleet.inv(),
        !fleet.pool.running,
    ensures
        fleet.run(steps).inv(),
        !fleet.run(steps).pool.running,
        fleet.run(steps).pool.connection_id == fleet.pool.connection_id,
        fleet.run(steps).live.dom().subset_of(fleet.live.dom()),
        fleet.all_drained() ==> fleet.run(steps).all_drained(),
        forall|id: nat, i: int|
            0 <= i < steps.len() && #[trigger] steps[i] == FleetStep::Exit(id) ==> !(
            #[trigger] fleet.run(steps).live.dom().contains(id)),
    decreases steps.len(),
{
    if steps.len() > 0 {
        let shorter = steps.drop_last();
        let before = fleet.run(shorter);
        lemma_stopped_run(fleet, shorter);
        lemma_step_keeps_inv(before, steps.last());
        match steps.last() {
            FleetStep::Event(event) => {
                assert(before.step(steps.last()) == before);
            },
            FleetStep::Exit(id) => {},
        }
        assert forall|id: nat, i: int|
            0 <= i < steps.len() && #[trigger] steps[i] == FleetStep::Exit(id) implies !(
        #[trigger] fleet.run(steps).live.dom().contains(id)) by {
            if i < steps.len() - 1 {
                assert(shorter[i] == steps[i]);
            }
        }
    }
}

/// The order to close retires the whole pool. The supervisor sends a drain
/// signal with the grace period to the current generation, after which every
/// live connection has been told to retire, and stops. From then on nothing is
/// started, so as soon as each of those connections has terminated, the number
/// of alive connections reads zero.
pub proof fn lemma_close_retires_all(fleet: Fleet, steps: Seq<FleetStep>)
    requires
        fleet.inv(),
        fleet.pool.running,
    ensures
        ({
            let close = PoolEvent::Command(KeylessPoolCmd::Close);
            let closed = fleet.step(FleetStep::Event(close));
            let later = closed.run(steps);
            &&& fleet.pool.reaction(close).drain == Some(fleet.pool.drain_signal())
            &&& fleet.pool.drain_signal().grace == drain_grace()
            &&& fleet.pool.reaction(close).stopped
            &&& closed.live.dom() == fleet.live.dom()
            &&& closed.all_drained()
            &&& !later.pool.running
            &&& later.all_drained()
            &&& later.live.dom().subset_of(fleet.live.dom())
            &&& later.pool.stats.alive_count() == later.live.dom().len()
            &&& (forall|id: nat| #[trigger]
                fleet.live.dom().contains(id) ==> exists|i: int|
                    0 <= i < steps.len() && #[trigger] steps[i] == FleetStep::Exit(id))
                ==> later.pool.stats.alive_count() == 0
        }),
{
    let close = PoolEvent::Command(KeylessPoolCmd::Close);
    let closed = fleet.step(FleetStep::Event(close));
    let later = closed.run(steps);
    let reaction = fleet.pool.reaction(close);
    lemma_step_keeps_inv(fleet, FleetStep::Event(close));
    lemma_deliver(fleet.live, reaction.drain);
    assert(reaction.created =~= fleet.pool.tickets(0));
    lemma_start_all(deliver(fleet.live, reaction.drain), fleet.pool, 0);
    assert(closed.live.dom() =~= fleet.live.dom());
    lemma_stopped_run(closed, steps);
    lemma_floor_restored(closed, steps);
    if forall|id: nat| #[trigger]
        fleet.live.dom().contains(id) ==> exists|i: int|
            0 <= i < steps.len() && #[trigger] steps[i] == FleetStep::Exit(id) {
        assert forall|id: nat| !later.live.dom().contains(id) by {
            if later.live.dom().contains(id) {
                assert(fleet.live.dom().contains(id));
                let i = choose|i: int| 0 <= i < steps.len() && #[trigger] steps[i]
                    == FleetStep::Exit(id);
                assert(steps[i] == FleetStep::Exit(id));
            }
        }
        assert(later.live.dom() =~= Set::empty());
    }
}

/// Drain generations keep the peers of one update apart from those of the
/// next. When the peers are updated, the signal goes to the generation that
/// was current, after which every connection started before has been told to
/// retire; the update itself starts nothing and leaves the counters as they
/// are. Every connection started later listens to a later generation and
/// never receives that signal; and the signal of the next update, whatever
/// happened in between, reaches no connection that was started before this
/// one.
pub proof fn lemma_drain_generation_isolation(fleet: Fleet, steps: Seq<FleetStep>)
    requires
        fleet.inv(),
        fleet.pool.running,
        fleet.pool.can_react(PoolEvent::Command(KeylessPoolCmd::UpdatePeers)),
    ensures
        ({
            let update = PoolEvent::Command(KeylessPoolCmd::UpdatePeers);
            let first = fleet.pool.drain_signal();
            let moved = fleet.step(FleetStep::Event(update));
            let later = moved.run(steps);
            &&& fleet.pool.reaction(update).drain == Some(first)
            &&& fleet.pool.reaction(update).created.len() == 0
            &&& moved.pool.stats == fleet.pool.stats
            &&& moved.pool.drain_generation == fleet.pool.drain_generation + 1
            &&& moved.live.dom() == fleet.live.dom()
            &&& moved.all_drained()
            &&& forall|id: nat| #[trigger]
                later.live.dom().contains(id) && !fleet.live.dom().contains(id) ==> !first.reaches(
                    TicketView { id, generation: later.live[id].generation },
                )
            &&& later.pool.running ==> (later.pool.reaction(update).drain matches Some(second)
                && forall|id: nat| #[trigger]
                fleet.live.dom().contains(id) ==> !second.reaches(
                    TicketView { id, generation: fleet.live[id].generation },
                ))
        }),
{
    let update = PoolEvent::Command(KeylessPoolCmd::UpdatePeers);
    let moved = fleet.step(FleetStep::Event(update));
    let reaction = fleet.pool.reaction(update);
    lemma_step_since(fleet, FleetStep::Event(update));
    lemma_deliver(fleet.live, reaction.drain);
    assert(reaction.created =~= fleet.pool.tickets(0));
    lemma_start_all(deliver(fleet.live, reaction.drain), fleet.pool, 0);
    assert(moved.live.dom() =~= fleet.live.dom());
    lemma_run_since(moved, steps);
}

/// To close a supervisor twice is to close it once: the second order finds it
/// stopped, sends no signal and changes nothing.
pub proof fn lemma_close_is_idempotent(pool: PoolView)
    ensures
        ({
            let close = PoolEvent::Command(KeylessPoolCmd::Close);
            let closed = pool.react(close);
            &&& !closed.running
            &&& closed.react(close) == closed
            &&& closed.reaction(close).drain is None
            &&& closed.reaction(close).created.len() == 0
            &&& closed.reaction(close).stopped
        }),
{
}

/// To restore the floor twice is to restore it once: as long as no connection
/// terminates in between, a second report finds nothing missing.
pub proof fn lemma_floor_restoration_is_idempotent(fleet: Fleet, first: u64, second: u64)
    requires
        fleet.inv(),
        fleet.pool.running,
        fleet.pool.can_react(PoolEvent::ConnectionClosed(first)),
    ensures
        ({
            let restored = fleet.step(FleetStep::Event(PoolEvent::ConnectionClosed(first)));
            let again = PoolEvent::ConnectionClosed(second);
            &&& restored.pool.below_floor() == 0
            &&& restored.pool.react(again) == restored.pool
            &&& restored.pool.reaction(again).created.len() == 0
            &&& restored.pool.reaction(again).drain is None
        }),
{
    let n = fleet.pool.below_floor();
    fleet.pool.stats.lemma_after_adds(n);
    lemma_step_keeps_inv(fleet, FleetStep::Event(PoolEvent::ConnectionClosed(first)));
    let restored = fleet.step(FleetStep::Event(PoolEvent::ConnectionClosed(first)));
    assert(restored.pool.stats.after_adds(0) == restored.pool.stats);
}

} // verus!
