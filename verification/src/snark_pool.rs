//! Snark-pool actions and their enabling conditions: when a commitment may
//! be created or added, when commitments are propagated to a peer, and when
//! timeouts are checked.

use vstd::prelude::*;

use crate::ids::{PeerId, Timestamp};

verus! {

/// Identifies one snark job.
pub type SnarkJobId = u64;

/// A worker's commitment to produce a snark for one job.
#[derive(Clone, Copy, Debug, PartialEq, Eq, Structural)]
pub struct SnarkJobCommitment {
    pub job_id: SnarkJobId,
    pub fee: u64,
    pub prover: PeerId,
}

/// One unit of available snark work, as reported by the ledger.
pub type AvailableJob = u64;

/// Every snark-pool action.
#[derive(Debug, PartialEq, Eq)]
pub enum SnarkPoolAction {
    CommitmentCreate(SnarkPoolCommitmentCreateAction),
    CommitmentAdd(SnarkPoolJobCommitmentAddAction),
    JobsUpdate(SnarkPoolJobsUpdateAction),
    P2pSendAll(SnarkPoolP2pSendAllAction),
    P2pSend(SnarkPoolP2pSendAction),
    CheckTimeouts(SnarkPoolCheckTimeoutsAction),
    JobCommitmentTimeout(SnarkPoolJobCommitmentTimeoutAction),
}

/// Replace the pool's set of available jobs.
#[derive(Debug, PartialEq, Eq)]
pub struct SnarkPoolJobsUpdateAction {
    pub jobs: Vec<AvailableJob>,
}

/// Commit to snarking one job.
#[derive(Clone, Copy, Debug, PartialEq, Eq, Structural)]
pub struct SnarkPoolCommitmentCreateAction {
    pub job_id: SnarkJobId,
}

/// Record a commitment a peer announced.
#[derive(Clone, Copy, Debug, PartialEq, Eq, Structural)]
pub struct SnarkPoolJobCommitmentAddAction {
    pub commitment: SnarkJobCommitment,
    pub sender: PeerId,
}

/// Propagate commitments to every ready peer.
#[derive(Clone, Copy, Debug, PartialEq, Eq, Structural)]
pub struct SnarkPoolP2pSendAllAction {}

/// Propagate commitments to one peer.
#[derive(Clone, Copy, Debug, PartialEq, Eq, Structural)]
pub struct SnarkPoolP2pSendAction {
    pub peer_id: PeerId,
}

/// Walk the pool for timed-out commitments.
#[derive(Clone, Copy, Debug, PartialEq, Eq, Structural)]
pub struct SnarkPoolCheckTimeoutsAction {}

/// Drop one timed-out commitment.
#[derive(Clone, Copy, Debug, PartialEq, Eq, Structural)]
pub struct SnarkPoolJobCommitmentTimeoutAction {
    pub job_id: SnarkJobId,
}

impl SnarkPoolJobCommitmentAddAction {
    /// A commitment is added only while the pool does not hold one for the
    /// job yet.
    pub fn is_enabled(&self, pool_contains_job: bool) -> (r: bool)
        ensures
            r == !pool_contains_job,
    {
        !pool_contains_job
    }
}

impl SnarkPoolP2pSendAction {
    /// Commitments go to a peer only while its channel has send credit and
    /// the pool holds an index the peer has not seen yet.
    pub fn is_enabled(&self, next_index: u64, limit: u64, last_index: u64) -> (r: bool)
        ensures
            r == (limit > 0 && next_index <= last_index),
    {
        limit > 0 && next_index <= last_index
    }
}

impl SnarkPoolCheckTimeoutsAction {
    /// Timeouts are checked at most once every five seconds; the clock
    /// counts nanoseconds, and a clock that moved backwards disables the
    /// check.
    pub fn is_enabled(&self, now: Timestamp, last_check: Timestamp) -> (r: bool)
        ensures
            r == (now >= last_check && (now - last_check) / 1_000_000_000 >= 5),
    {
        now >= last_check && (now - last_check) / 1_000_000_000 >= 5
    }
}

} // verus!
