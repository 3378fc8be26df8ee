//! The room loop: the repeating send-broadcast/await-all-receipts cycle
//! for one room, as a state machine.
//!
//! The runner performs the sends, waits and sleeps; this machine makes the
//! decisions: who sends, when the collect barrier is full, and that any
//! failure of any member halts the room for good.

use vstd::prelude::*;

use crate::client::{ReceiveError, SendError};
use crate::state::State;

verus! {

/// Why a room's loop halted.
#[derive(Debug)]
pub enum LoopError {
    /// The room has no members, so no sender can be designated.
    RoomEmpty,
    /// The broadcast send failed.
    Send(SendError),
    /// Some member's wait for the broadcast failed.
    Receive(ReceiveError),
}

/// Where one room's conversation cycle stands.
#[derive(Debug)]
pub enum Phase {
    /// Between iterations.
    Idle,
    /// The designated sender's broadcast is in flight.
    Sending,
    /// Collecting receipts: `received` members have seen the broadcast.
    Collecting { received: usize },
    /// A failure halted the loop; it never leaves this state.
    Failed,
}

/// The conversation loop of one room with a fixed member count.
pub struct RoomLoop {
    pub members: usize,
    pub phase: Phase,
}

/// The collect barrier is full: every member, the sender included, has
/// received the broadcast back.
pub open spec fn collect_done(l: RoomLoop) -> bool {
    l.phase matches Phase::Collecting { received } && received == l.members
}

/// One successful receipt, as it moves the machine.
pub open spec fn step_receive_ok(l: RoomLoop) -> RoomLoop {
    match l.phase {
        Phase::Collecting { received } => if received < l.members {
            RoomLoop { members: l.members, phase: Phase::Collecting { received: (received + 1) as usize } }
        } else {
            l
        },
        _ => l,
    }
}

/// The machine after `k` successful receipts.
pub open spec fn apply_receipts(l: RoomLoop, k: nat) -> RoomLoop
    decreases k,
{
    if k == 0 {
        l
    } else {
        step_receive_ok(apply_receipts(l, (k - 1) as nat))
    }
}

impl RoomLoop {
    /// A fresh loop for a room of `members` clients, between iterations.
    pub fn new(members: usize) -> (l: RoomLoop)
        ensures
            l.members == members,
            l.phase == Phase::Idle,
    {
        RoomLoop { members, phase: Phase::Idle }
    }

    /// Begins one iteration.  An empty room cannot designate a sender:
    /// the loop fails at once.  Otherwise the designated sender is the
    /// first member, and its broadcast is now owed.
    pub fn start_iteration(&mut self) -> (r: Result<usize, LoopError>)
        requires
            old(self).phase == Phase::Idle,
        ensures
            final(self).members == old(self).members,
            old(self).members == 0 ==> r == Err::<usize, LoopError>(LoopError::RoomEmpty)
                && final(self).phase == Phase::Failed,
            old(self).members > 0 ==> r == Ok::<usize, LoopError>(0usize) && final(self).phase
                == Phase::Sending,
    {
        if self.members == 0 {
            self.phase = Phase::Failed;
            Err(LoopError::RoomEmpty)
        } else {
            self.phase = Phase::Sending;
            Ok(0)
        }
    }

    /// Accounts for the outcome of the broadcast send: on success the
    /// collect barrier opens with no receipts yet; on failure the loop
    /// halts and the error is handed up unrecovered.
    pub fn send_finished(&mut self, result: Result<(), SendError>) -> (r: Result<(), LoopError>)
        requires
            old(self).phase == Phase::Sending,
        ensures
            final(self).members == old(self).members,
            match result {
                Ok(()) => r == Ok::<(), LoopError>(()) && final(self).phase == (Phase::Collecting {
                    received: 0usize,
                }),
                Err(e) => r == Err::<(), LoopError>(LoopError::Send(e)) && final(self).phase
                    == Phase::Failed,
            },
    {
        match result {
            Ok(()) => {
                self.phase = Phase::Collecting { received: 0 };
                Ok(())
            },
            Err(e) => {
                self.phase = Phase::Failed;
                Err(LoopError::Send(e))
            },
        }
    }

    /// Accounts for the outcome of one member's wait: a receipt moves the
    /// barrier forward; any failure halts the loop and is handed up.
    pub fn receive_finished(&mut self, result: Result<(), ReceiveError>) -> (r: Result<
        (),
        LoopError,
    >)
        requires
            old(self).phase matches Phase::Collecting { received } && received < old(self).members,
        ensures
            final(self).members == old(self).members,
            match result {
                Ok(()) => r == Ok::<(), LoopError>(()) && *final(self) == step_receive_ok(
                    *old(self),
                ),
                Err(e) => r == Err::<(), LoopError>(LoopError::Receive(e)) && final(self).phase
                    == Phase::Failed,
            },
    {
        match result {
            Ok(()) => {
                match self.phase {
                    Phase::Collecting { received } => {
                        self.phase = Phase::Collecting { received: received + 1 };
                    },
                    _ => (),
                }
                Ok(())
            },
            Err(e) => {
                self.phase = Phase::Failed;
                Err(LoopError::Receive(e))
            },
        }
    }

    /// Whether the collect barrier is full.
    pub fn collect_complete(&self) -> (r: bool)
        ensures
            r == collect_done(*self),
    {
        match self.phase {
            Phase::Collecting { received } => received == self.members,
            _ => false,
        }
    }

    /// Closes one iteration once every member has its receipt: the
    /// elapsed duration is recorded as one loop sample and the room goes
    /// back to idle, ready for the inter-iteration pause.
    pub fn finish_iteration(&mut self, metrics: &mut State, elapsed_micros: u64)
        requires
            collect_done(*old(self)),
            old(metrics).loop_avg_sum + elapsed_micros <= u64::MAX,
            old(metrics).loop_avg_count < u64::MAX,
        ensures
            final(self).members == old(self).members,
            final(self).phase == Phase::Idle,
            final(metrics).loop_avg_sum == old(metrics).loop_avg_sum + elapsed_micros,
            final(metrics).loop_avg_count == old(metrics).loop_avg_count + 1,
            final(metrics).rooms_created == old(metrics).rooms_created,
            final(metrics).clients_connected == old(metrics).clients_connected,
    {
        metrics.register_loop_iteration(elapsed_micros);
        self.phase = Phase::Idle;
    }
}

/// The collect phase is a full fan-in barrier, not a race: from a fresh
/// barrier, `k` receipts leave the room still collecting — suspended, not
/// advanced — for every `k` short of the member count, and exactly the
/// member count of receipts fills the barrier.
pub proof fn lemma_collect_barrier(l: RoomLoop, k: nat)
    requires
        l.phase == (Phase::Collecting { received: 0usize }),
        k <= l.members,
    ensures
        apply_receipts(l, k).members == l.members,
        apply_receipts(l, k).phase == (Phase::Collecting { received: k as usize }),
        k < l.members ==> !collect_done(apply_receipts(l, k)),
        k == l.members ==> collect_done(apply_receipts(l, k)),
    decreases k,
{
    if k > 0 {
        lemma_collect_barrier(l, (k - 1) as nat);
    }
}

} // verus!
