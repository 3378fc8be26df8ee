//! Room population: the admission-paced connection of one room's clients,
//! as a state machine, and the counter bookkeeping it owes the metrics.
//!
//! The runner dials the sockets and sleeps the per-connection delay; this
//! machine decides what each outcome means: a success is counted at once,
//! a failure aborts the room's population for good, and only a room that
//! reached its full member count may be marked created and have its loop
//! launched.

use vstd::prelude::*;

use crate::state::State;

verus! {

/// The population of one room: how many of the `target` clients are
/// connected, and whether a connect failure has aborted the room.
pub struct Population {
    pub target: u32,
    pub connected: u32,
    pub aborted: bool,
}

/// Every client of the room is connected and nothing failed: only then is
/// the room created and its loop launched.
pub open spec fn population_complete(p: Population) -> bool {
    p.connected == p.target && !p.aborted
}

impl Population {
    /// Starts populating a room that is to hold `target` clients.
    pub fn new(target: u32) -> (p: Population)
        ensures
            p.target == target,
            p.connected == 0,
            !p.aborted,
    {
        Population { target, connected: 0, aborted: false }
    }

    /// Accounts for one successfully connected client: the room's count
    /// and the shared "clients connected" counter both move by one.
    pub fn client_connected(&mut self, metrics: &mut State)
        requires
            !old(self).aborted,
            old(self).connected < old(self).target,
            old(metrics).clients_connected < u64::MAX,
        ensures
            final(self).target == old(self).target,
            final(self).connected == old(self).connected + 1,
            !final(self).aborted,
            final(metrics).clients_connected == old(metrics).clients_connected + 1,
            final(metrics).rooms_created == old(metrics).rooms_created,
            final(metrics).loop_avg_sum == old(metrics).loop_avg_sum,
            final(metrics).loop_avg_count == old(metrics).loop_avg_count,
    {
        self.connected = self.connected + 1;
        metrics.inc_clients_connected();
    }

    /// Accounts for a connect failure: the room's population aborts, no
    /// counter moves, and the abort is permanent — no later event can
    /// complete this room.
    pub fn client_failed(&mut self)
        ensures
            final(self).target == old(self).target,
            final(self).connected == old(self).connected,
            final(self).aborted,
    {
        self.aborted = true;
    }

    /// Whether the room reached its full member count without a failure.
    pub fn is_complete(&self) -> (r: bool)
        ensures
            r == population_complete(*self),
    {
        self.connected == self.target && !self.aborted
    }

    /// Marks the fully populated room created, moving the shared "rooms
    /// created" counter; the room's loop is launched after this.
    pub fn room_created(&mut self, metrics: &mut State)
        requires
            population_complete(*old(self)),
            old(metrics).rooms_created < u64::MAX,
        ensures
            *final(self) == *old(self),
            final(metrics).rooms_created == old(metrics).rooms_created + 1,
            final(metrics).clients_connected == old(metrics).clients_connected,
            final(metrics).loop_avg_sum == old(metrics).loop_avg_sum,
            final(metrics).loop_avg_count == old(metrics).loop_avg_count,
    {
        metrics.inc_rooms_created();
    }
}

/// The counter totals after fully populating some rooms, starting from
/// the given totals: each room adds one to "rooms created" and its full
/// member count to "clients connected", exactly as the machine's steps do.
pub open spec fn after_population(rooms0: int, clients0: int, rooms: nat, clients_per_room: nat) -> (
    int,
    int,
)
    decreases rooms,
{
    if rooms == 0 {
        (rooms0, clients0)
    } else {
        let p = after_population(rooms0, clients0, (rooms - 1) as nat, clients_per_room);
        (p.0 + 1, p.1 + clients_per_room)
    }
}

/// After population completes for a configuration of R rooms with C
/// clients each, "rooms created" has moved by exactly R and "clients
/// connected" by exactly R times C.
pub proof fn lemma_population_totals(rooms0: int, clients0: int, rooms: nat, clients_per_room: nat)
    ensures
        after_population(rooms0, clients0, rooms, clients_per_room) == (
            rooms0 + rooms,
            clients0 + rooms * clients_per_room,
        ),
    decreases rooms,
{
    if rooms == 0 {
        assert(rooms * clients_per_room == 0) by (nonlinear_arith)
            requires
                rooms == 0,
        ;
    } else {
        lemma_population_totals(rooms0, clients0, (rooms - 1) as nat, clients_per_room);
        assert(rooms * clients_per_room == (rooms - 1) * clients_per_room + clients_per_room)
            by (nonlinear_arith)
            requires
                rooms >= 1,
        ;
    }
}

/// An aborted room is never complete: its loop is never launched and it
/// is never counted as created, however many clients it had already
/// connected.
pub proof fn lemma_abort_blocks_room(p: Population)
    requires
        p.aborted,
    ensures
        !population_complete(p),
{
}

} // verus!
