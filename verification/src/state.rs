//! Metrics aggregator: four monotonically written counters that every room
//! loop and the orchestrator report into, periodically drained by a reporter.
//!
//! `rooms_created` and `clients_connected` only ever grow; the two loop
//! counters (`loop_avg_sum`, `loop_avg_count`) accumulate one sample per
//! completed loop iteration and are taken and zeroed together by
//! [`State::reset_loop_and_dump`], so a dump's sum and count always describe
//! the same set of iterations.

use vstd::prelude::*;

verus! {

/// The shared counter set summarizing load-test progress.
pub struct State {
    /// Rooms fully populated so far.
    pub rooms_created: u64,
    /// Client connections successfully established so far.
    pub clients_connected: u64,
    /// Sum of the durations (microseconds) of loop iterations completed
    /// since the last dump.
    pub loop_avg_sum: u64,
    /// Number of loop iterations completed since the last dump.
    pub loop_avg_count: u64,
}

/// One reporter snapshot: the monotonic totals, the loop sample sum and
/// count accumulated since the previous snapshot, and the wall-clock time
/// at which the snapshot was taken.
pub struct StateDump {
    pub rooms_created: u64,
    pub clients_connected: u64,
    pub loop_avg_sum: u64,
    pub loop_avg_count: u64,
    /// RFC 3339 timestamp, as UTF-8 bytes.
    pub timestamp: Vec<u8>,
}

/// Relies on chrono's `Utc::now` and `DateTime::to_rfc3339` for the current
/// wall-clock time; nothing is assumed of the bytes returned.
#[verifier::external_body]
fn utc_now_rfc3339() -> Vec<u8> {
    chrono::Utc::now().to_rfc3339().into_bytes()
}

impl State {
    /// A fresh aggregator with every counter at zero.
    pub fn new() -> (s: State)
        ensures
            s.rooms_created == 0,
            s.clients_connected == 0,
            s.loop_avg_sum == 0,
            s.loop_avg_count == 0,
    {
        State { rooms_created: 0, clients_connected: 0, loop_avg_sum: 0, loop_avg_count: 0 }
    }

    /// Record one completed loop iteration that took `micros` microseconds.
    pub fn register_loop_iteration(&mut self, micros: u64)
        requires
            old(self).loop_avg_sum + micros <= u64::MAX,
            old(self).loop_avg_count < u64::MAX,
        ensures
            final(self).loop_avg_sum == old(self).loop_avg_sum + micros,
            final(self).loop_avg_count == old(self).loop_avg_count + 1,
            final(self).rooms_created == old(self).rooms_created,
            final(self).clients_connected == old(self).clients_connected,
    {
        self.loop_avg_sum = self.loop_avg_sum + micros;
        self.loop_avg_count = self.loop_avg_count + 1;
    }

    /// Record one successfully connected client.
    pub fn inc_clients_connected(&mut self)
        requires
            old(self).clients_connected < u64::MAX,
        ensures
            final(self).clients_connected == old(self).clients_connected + 1,
            final(self).rooms_created == old(self).rooms_created,
            final(self).loop_avg_sum == old(self).loop_avg_sum,
            final(self).loop_avg_count == old(self).loop_avg_count,
    {
        self.clients_connected = self.clients_connected + 1;
    }

    /// Record one fully populated room.
    pub fn inc_rooms_created(&mut self)
        requires
            old(self).rooms_created < u64::MAX,
        ensures
            final(self).rooms_created == old(self).rooms_created + 1,
            final(self).clients_connected == old(self).clients_connected,
            final(self).loop_avg_sum == old(self).loop_avg_sum,
            final(self).loop_avg_count == old(self).loop_avg_count,
    {
        self.rooms_created = self.rooms_created + 1;
    }

    /// Take a snapshot: read the monotonic totals, take and zero the two
    /// loop counters together, and stamp the result with the current time.
    pub fn reset_loop_and_dump(&mut self) -> (d: StateDump)
        ensures
            d.rooms_created == old(self).rooms_created,
            d.clients_connected == old(self).clients_connected,
            d.loop_avg_sum == old(self).loop_avg_sum,
            d.loop_avg_count == old(self).loop_avg_count,
            final(self).rooms_created == old(self).rooms_created,
            final(self).clients_connected == old(self).clients_connected,
            final(self).loop_avg_sum == 0,
            final(self).loop_avg_count == 0,
    {
        let dump = StateDump {
            rooms_created: self.rooms_created,
            clients_connected: self.clients_connected,
            loop_avg_sum: self.loop_avg_sum,
            loop_avg_count: self.loop_avg_count,
            timestamp: utc_now_rfc3339(),
        };
        self.loop_avg_sum = 0;
        self.loop_avg_count = 0;
        dump
    }
}

/// The sum of a batch of loop samples.
pub open spec fn sum_of(durs: Seq<u64>) -> int
    decreases durs.len(),
{
    if durs.len() == 0 {
        0
    } else {
        sum_of(durs.drop_last()) + durs.last()
    }
}

/// The (sum, count) of the loop counters after registering each sample of
/// `durs`, starting from the given values, exactly as
/// [`State::register_loop_iteration`] moves them.
pub open spec fn register_fold(sum0: int, count0: int, durs: Seq<u64>) -> (int, int)
    decreases durs.len(),
{
    if durs.len() == 0 {
        (sum0, count0)
    } else {
        let p = register_fold(sum0, count0, durs.drop_last());
        (p.0 + durs.last(), p.1 + 1)
    }
}

/// Two consecutive dumps: the first leaves both loop counters at zero, so
/// whatever the second dump reads is exactly the iterations registered
/// strictly between the two — their count, and their duration sum.
pub proof fn lemma_second_dump(durs: Seq<u64>)
    ensures
        register_fold(0, 0, durs) == (sum_of(durs), durs.len() as int),
    decreases durs.len(),
{
    if durs.len() > 0 {
        lemma_second_dump(durs.drop_last());
    }
}

impl StateDump {
    /// Average loop-iteration duration over the iterations this dump covers:
    /// the sample sum divided by the sample count, and zero when no
    /// iteration was recorded.  Never negative: the result is an unsigned
    /// quotient of unsigned counters.
    pub fn loop_average(&self) -> (avg: u64)
        ensures
            self.loop_avg_count == 0 ==> avg == 0,
            self.loop_avg_count > 0 ==> avg == self.loop_avg_sum / self.loop_avg_count,
            avg >= 0,
    {
        if self.loop_avg_count == 0 {
            0
        } else {
            self.loop_avg_sum / self.loop_avg_count
        }
    }
}

} // verus!
