//! VRF leader-election evaluator: a state machine that walks every slot of
//! an epoch the producer's delegated stake could win, keeps the ordered map
//! of won slots, and decides when the next epoch's staking data may be
//! evaluated.

use vstd::prelude::*;

use crate::ids::{LedgerHash, Timestamp};

verus! {

/// Number of slots in one epoch.
pub const SLOTS_PER_EPOCH: u64 = 7140;

/// Staking data of one epoch.  The delegator table is present only once the
/// ledger collaborator has constructed it.
#[derive(Debug, PartialEq, Eq)]
pub struct EpochData {
    pub ledger: LedgerHash,
    pub seed: u64,
    pub total_currency: u64,
    pub delegator_table: Option<Vec<DelegatorEntry>>,
}

/// One delegator of the producer: its index in the staking ledger, its
/// public key and its stake.
#[derive(Clone, Copy, Debug, PartialEq, Eq, Structural)]
pub struct DelegatorEntry {
    pub index: u64,
    pub pub_key: u64,
    pub stake: u64,
}

/// Which epoch's staking data is being evaluated.
#[derive(Debug, PartialEq, Eq)]
pub enum EpochContext {
    Current(EpochData),
    Next(EpochData),
    Waiting,
}

/// What the cryptographic collaborator reports for one evaluated slot.
#[derive(Clone, Copy, Debug, PartialEq, Eq, Structural)]
pub enum VrfEvaluationOutput {
    SlotWon { global_slot: u32, value: u64 },
    SlotLost { global_slot: u32 },
}

/// The global slot an evaluation output speaks about.
pub open spec fn vrf_output_slot(o: VrfEvaluationOutput) -> u32 {
    match o {
        VrfEvaluationOutput::SlotWon { global_slot, .. } => global_slot,
        VrfEvaluationOutput::SlotLost { global_slot } => global_slot,
    }
}

/// One slot trial handed to the cryptographic collaborator.
#[derive(Clone, Copy, Debug, PartialEq, Eq, Structural)]
pub struct VrfEvaluatorInput {
    pub producer_key: u64,
    pub epoch_seed: u64,
    pub delegator_index: u64,
    pub delegator_stake: u64,
    pub total_currency: u64,
    pub global_slot: u32,
}

/// What is kept for a won slot: the winning VRF value and the staking
/// ledger it was evaluated against.
#[derive(Clone, Copy, Debug, PartialEq, Eq, Structural)]
pub struct WonSlot {
    pub vrf_value: u64,
    pub staking_ledger_hash: LedgerHash,
}

/// The slot evaluation the evaluator is working through.
#[derive(Debug, PartialEq, Eq)]
pub struct VrfEvaluatorCurrentEvaluation {
    pub epoch_number: u32,
    pub epoch_data: EpochData,
    pub latest_evaluated_slot: u32,
}

/// Where the evaluator stands.
#[derive(Debug, PartialEq, Eq)]
pub enum BlockProducerVrfEvaluatorStatus {
    Idle { time: Timestamp },
    InitialisationPending { time: Timestamp },
    Initialised { time: Timestamp },
    ReadinessCheck { time: Timestamp, epoch_context: EpochContext },
    EpochContextChosen { time: Timestamp, epoch_context: EpochContext },
    DelegatorTableRequested { time: Timestamp, epoch_context: EpochContext },
    DelegatorTableConstructed { time: Timestamp, epoch_context: EpochContext },
    SlotSelection { time: Timestamp },
    EpochEvaluationPending { time: Timestamp },
    SlotRequested { time: Timestamp },
    SlotEvaluated { time: Timestamp },
    EpochBoundEvaluated { time: Timestamp },
    WaitingForNextEvaluation { time: Timestamp },
}

/// An action delivered to the evaluator.
#[derive(Debug, PartialEq, Eq)]
pub enum BlockProducerVrfEvaluatorAction {
    EvaluateSlot { vrf_input: VrfEvaluatorInput },
    ProcessSlotEvaluationSuccess {
        vrf_output: VrfEvaluationOutput,
        staking_ledger_hash: LedgerHash,
    },
    InitializeEvaluator { best_tip_height: u32 },
    FinalizeEvaluatorInitialization { previous_epoch_and_height: Option<(u32, u32)> },
    CheckEpochEvaluability {
        current_epoch_number: u32,
        current_best_tip_height: u32,
        transition_frontier_size: u32,
        staking_epoch_data: EpochData,
        next_epoch_data: EpochData,
    },
    InitializeEpochEvaluation { current_epoch_number: u32, producer: u64 },
    BeginDelegatorTableConstruction,
    FinalizeDelegatorTableConstruction { delegator_table: Vec<DelegatorEntry> },
    SelectInitialSlot {
        current_global_slot: u32,
        current_epoch_number: u32,
        next_epoch_first_slot: u32,
    },
    BeginEpochEvaluation,
    RecordLastBlockHeightInEpoch { epoch_number: u32, last_block_height: u32 },
    ContinueEpochEvaluation { latest_evaluated_global_slot: u32, epoch_number: u32 },
    FinishEpochEvaluation { epoch_number: u32, latest_evaluated_global_slot: u32 },
    WaitForNextEvaluation,
    CheckEpochBounds { epoch_number: u32, latest_evaluated_global_slot: u32 },
    CleanupOldSlots { current_epoch_number: u32 },
}

// --- spec helpers over the state ---------------------------------------

/// The won-slot table is keyed by strictly increasing global slot.
pub open spec fn won_slots_sorted(s: Seq<(u32, WonSlot)>) -> bool {
    forall|i: int, j: int| 0 <= i < j < s.len() ==> s[i].0 < s[j].0
}

/// Every won slot lies at or below the latest evaluated one.
pub open spec fn won_slots_bounded(s: Seq<(u32, WonSlot)>, latest: int) -> bool {
    forall|i: int| 0 <= i < s.len() ==> s[i].0 <= latest
}

/// The delegator table is a map from delegator index: each index appears
/// once.
pub open spec fn delegator_table_unique(t: Seq<DelegatorEntry>) -> bool {
    forall|i: int, j: int| 0 <= i < j < t.len() ==> t[i].index != t[j].index
}

/// The height recorded for an epoch: the most recent record wins.
pub open spec fn heights_lookup(s: Seq<(u32, u32)>, epoch: u32) -> Option<u32>
    decreases s.len(),
{
    if s.len() == 0 {
        None
    } else if s.last().0 == epoch {
        Some(s.last().1)
    } else {
        heights_lookup(s.drop_last(), epoch)
    }
}

/// First global slot of an epoch.
pub open spec fn epoch_first_slot(epoch: u32) -> int {
    epoch * SLOTS_PER_EPOCH
}

/// Last global slot of an epoch.
pub open spec fn epoch_last_slot(epoch: u32) -> int {
    (epoch + 1) * SLOTS_PER_EPOCH - 1
}

/// The oldest slot worth keeping: the first slot of the epoch before the
/// current one.
pub open spec fn spec_retention_slot(current_epoch: u32) -> int {
    if current_epoch == 0 {
        0
    } else {
        (current_epoch - 1) * SLOTS_PER_EPOCH
    }
}

/// The won slots kept by a cleanup with retention boundary `r`.
pub open spec fn retained_slots(s: Seq<(u32, WonSlot)>, r: int) -> Seq<(u32, WonSlot)>
    decreases s.len(),
{
    if s.len() == 0 {
        Seq::empty()
    } else if s.last().0 >= r {
        retained_slots(s.drop_last(), r).push(s.last())
    } else {
        retained_slots(s.drop_last(), r)
    }
}

/// The whole evaluator state.
#[derive(Debug, PartialEq, Eq)]
pub struct BlockProducerVrfEvaluatorState {
    pub status: BlockProducerVrfEvaluatorStatus,
    /// Won slots keyed by strictly increasing global slot.
    pub won_slots: Vec<(u32, WonSlot)>,
    pub current_evaluation: Option<VrfEvaluatorCurrentEvaluation>,
    /// The highest epoch whose slots have all been evaluated.
    pub last_evaluated_epoch: Option<u32>,
    /// Per-epoch height of the epoch's last block; the newest record wins.
    pub last_block_heights: Vec<(u32, u32)>,
}

/// Structural invariant of the evaluator: the won-slot keys increase
/// strictly, and while an evaluation is under way they all lie at or below
/// its latest evaluated slot.
pub open spec fn evaluator_wf(s: BlockProducerVrfEvaluatorState) -> bool {
    &&& won_slots_sorted(s.won_slots@)
    &&& s.current_evaluation matches Some(ce) ==> won_slots_bounded(
        s.won_slots@,
        ce.latest_evaluated_slot as int,
    )
}

// --- enabling conditions ------------------------------------------------

impl BlockProducerVrfEvaluatorState {
    /// The evaluator has left its idle state.
    pub open spec fn spec_is_initialized(self) -> bool {
        !(self.status matches BlockProducerVrfEvaluatorStatus::Idle { .. })
    }

    /// A slot is being enumerated or chosen.
    pub open spec fn spec_is_evaluating(self) -> bool {
        ||| self.status matches BlockProducerVrfEvaluatorStatus::SlotSelection { .. }
        ||| self.status matches BlockProducerVrfEvaluatorStatus::EpochEvaluationPending { .. }
    }

    /// A fresh evaluability check may start.
    pub open spec fn spec_can_check_next_evaluation(self) -> bool {
        ||| self.status matches BlockProducerVrfEvaluatorStatus::Initialised { .. }
        ||| self.status matches BlockProducerVrfEvaluatorStatus::WaitingForNextEvaluation { .. }
    }

}

/// When an action is allowed to run against a state; disallowed actions are
/// silently dropped by the dispatcher.
pub open spec fn spec_is_enabled(
    s: BlockProducerVrfEvaluatorState,
    a: BlockProducerVrfEvaluatorAction,
) -> bool {
    match a {
        BlockProducerVrfEvaluatorAction::EvaluateSlot { .. } => s.spec_is_evaluating(),
        BlockProducerVrfEvaluatorAction::ProcessSlotEvaluationSuccess {
            vrf_output,
            staking_ledger_hash,
        } => {
            &&& s.status matches BlockProducerVrfEvaluatorStatus::SlotRequested { .. }
            &&& s.current_evaluation matches Some(ce) && ce.latest_evaluated_slot + 1
                == vrf_output_slot(vrf_output) && ce.epoch_data.ledger == staking_ledger_hash
        },
        BlockProducerVrfEvaluatorAction::InitializeEvaluator { .. } => !s.spec_is_initialized(),
        BlockProducerVrfEvaluatorAction::FinalizeEvaluatorInitialization { .. } => s.status
            matches BlockProducerVrfEvaluatorStatus::InitialisationPending { .. },
        BlockProducerVrfEvaluatorAction::CheckEpochEvaluability { .. } => s
            .spec_can_check_next_evaluation(),
        BlockProducerVrfEvaluatorAction::InitializeEpochEvaluation { .. } => {
            &&& s.status matches BlockProducerVrfEvaluatorStatus::ReadinessCheck {
                epoch_context,
                ..
            }
            &&& !(epoch_context matches EpochContext::Waiting)
        },
        BlockProducerVrfEvaluatorAction::BeginDelegatorTableConstruction => s.status matches
            BlockProducerVrfEvaluatorStatus::EpochContextChosen { .. },
        BlockProducerVrfEvaluatorAction::FinalizeDelegatorTableConstruction { .. } => s.status
            matches BlockProducerVrfEvaluatorStatus::DelegatorTableRequested { .. },
        BlockProducerVrfEvaluatorAction::SelectInitialSlot { .. } => s.status matches
            BlockProducerVrfEvaluatorStatus::DelegatorTableConstructed { .. },
        BlockProducerVrfEvaluatorAction::BeginEpochEvaluation => s.status matches
            BlockProducerVrfEvaluatorStatus::SlotSelection { .. },
        BlockProducerVrfEvaluatorAction::RecordLastBlockHeightInEpoch { .. } => true,
        BlockProducerVrfEvaluatorAction::ContinueEpochEvaluation { .. } => {
            ||| s.status matches BlockProducerVrfEvaluatorStatus::EpochBoundEvaluated { .. }
            ||| s.status matches BlockProducerVrfEvaluatorStatus::EpochEvaluationPending { .. }
        },
        BlockProducerVrfEvaluatorAction::FinishEpochEvaluation { .. } => s.status matches
            BlockProducerVrfEvaluatorStatus::EpochBoundEvaluated { .. },
        BlockProducerVrfEvaluatorAction::WaitForNextEvaluation => s.status matches
            BlockProducerVrfEvaluatorStatus::ReadinessCheck { .. },
        BlockProducerVrfEvaluatorAction::CheckEpochBounds { .. } => s.status matches
            BlockProducerVrfEvaluatorStatus::SlotEvaluated { .. },
        BlockProducerVrfEvaluatorAction::CleanupOldSlots { current_epoch_number } => s
            .won_slots@.len() > 0 && (s.won_slots@[0].0 as int) < spec_retention_slot(
            current_epoch_number,
        ),
    }
}

impl BlockProducerVrfEvaluatorAction {
    /// Decides whether this action may run against the state; the
    /// dispatcher drops it otherwise.
    pub fn is_enabled(&self, state: &BlockProducerVrfEvaluatorState) -> (r: bool)
        ensures
            r == spec_is_enabled(*state, *self),
    {
        match self {
            BlockProducerVrfEvaluatorAction::EvaluateSlot { .. } => match state.status {
                BlockProducerVrfEvaluatorStatus::SlotSelection { .. } => true,
                BlockProducerVrfEvaluatorStatus::EpochEvaluationPending { .. } => true,
                _ => false,
            },
            BlockProducerVrfEvaluatorAction::ProcessSlotEvaluationSuccess {
                vrf_output,
                staking_ledger_hash,
            } => {
                let slot_requested = match state.status {
                    BlockProducerVrfEvaluatorStatus::SlotRequested { .. } => true,
                    _ => false,
                };
                if !slot_requested {
                    false
                } else {
                    match &state.current_evaluation {
                        Some(ce) => {
                            let slot = match vrf_output {
                                VrfEvaluationOutput::SlotWon { global_slot, .. } => *global_slot,
                                VrfEvaluationOutput::SlotLost { global_slot } => *global_slot,
                            };
                            (ce.latest_evaluated_slot as u64) + 1 == (slot as u64)
                                && ce.epoch_data.ledger == *staking_ledger_hash
                        },
                        None => false,
                    }
                }
            },
            BlockProducerVrfEvaluatorAction::InitializeEvaluator { .. } => match state.status {
                BlockProducerVrfEvaluatorStatus::Idle { .. } => true,
                _ => false,
            },
            BlockProducerVrfEvaluatorAction::FinalizeEvaluatorInitialization { .. } => match state
                .status {
                BlockProducerVrfEvaluatorStatus::InitialisationPending { .. } => true,
                _ => false,
            },
            BlockProducerVrfEvaluatorAction::CheckEpochEvaluability { .. } => match state.status {
                BlockProducerVrfEvaluatorStatus::Initialised { .. } => true,
                BlockProducerVrfEvaluatorStatus::WaitingForNextEvaluation { .. } => true,
                _ => false,
            },
            BlockProducerVrfEvaluatorAction::InitializeEpochEvaluation { .. } => match &state
                .status {
                BlockProducerVrfEvaluatorStatus::ReadinessCheck { epoch_context, .. } => match
                    epoch_context {
                    EpochContext::Waiting => false,
                    _ => true,
                },
                _ => false,
            },
            BlockProducerVrfEvaluatorAction::BeginDelegatorTableConstruction => match state
                .status {
                BlockProducerVrfEvaluatorStatus::EpochContextChosen { .. } => true,
                _ => false,
            },
            BlockProducerVrfEvaluatorAction::FinalizeDelegatorTableConstruction { .. } => match
                state.status {
                BlockProducerVrfEvaluatorStatus::DelegatorTableRequested { .. } => true,
                _ => false,
            },
            BlockProducerVrfEvaluatorAction::SelectInitialSlot { .. } => match state.status {
                BlockProducerVrfEvaluatorStatus::DelegatorTableConstructed { .. } => true,
                _ => false,
            },
            BlockProducerVrfEvaluatorAction::BeginEpochEvaluation => match state.status {
                BlockProducerVrfEvaluatorStatus::SlotSelection { .. } => true,
                _ => false,
            },
            BlockProducerVrfEvaluatorAction::RecordLastBlockHeightInEpoch { .. } => true,
            BlockProducerVrfEvaluatorAction::ContinueEpochEvaluation { .. } => match state.status {
                BlockProducerVrfEvaluatorStatus::EpochBoundEvaluated { .. } => true,
                BlockProducerVrfEvaluatorStatus::EpochEvaluationPending { .. } => true,
                _ => false,
            },
            BlockProducerVrfEvaluatorAction::FinishEpochEvaluation { .. } => match state.status {
                BlockProducerVrfEvaluatorStatus::EpochBoundEvaluated { .. } => true,
                _ => false,
            },
            BlockProducerVrfEvaluatorAction::WaitForNextEvaluation => match state.status {
                BlockProducerVrfEvaluatorStatus::ReadinessCheck { .. } => true,
                _ => false,
            },
            BlockProducerVrfEvaluatorAction::CheckEpochBounds { .. } => match state.status {
                BlockProducerVrfEvaluatorStatus::SlotEvaluated { .. } => true,
                _ => false,
            },
            BlockProducerVrfEvaluatorAction::CleanupOldSlots { current_epoch_number } => {
                if state.won_slots.len() > 0 {
                    let first = state.won_slots[0].0;
                    (first as u64) < retention_slot(*current_epoch_number)
                } else {
                    false
                }
            },
        }
    }
}

/// The oldest slot worth keeping for the given current epoch.
pub fn retention_slot(current_epoch: u32) -> (r: u64)
    ensures
        r == spec_retention_slot(current_epoch),
{
    if current_epoch == 0 {
        0
    } else {
        ((current_epoch - 1) as u64) * SLOTS_PER_EPOCH
    }
}

// --- retention lemmas ---------------------------------------------------

/// Every slot a cleanup keeps lies at or past the retention boundary.
pub proof fn lemma_retained_geq(s: Seq<(u32, WonSlot)>, r: int)
    ensures
        forall|k: int| 0 <= k < retained_slots(s, r).len() ==> retained_slots(s, r)[k].0 >= r,
    decreases s.len(),
{
    if s.len() > 0 {
        let t = s.drop_last();
        lemma_retained_geq(t, r);
        if s.last().0 >= r {
            assert forall|k: int|
                0 <= k < retained_slots(s, r).len() implies retained_slots(s, r)[k].0 >= r by {
                if k < retained_slots(t, r).len() {
                    assert(retained_slots(s, r)[k] == retained_slots(t, r)[k]);
                } else {
                    assert(retained_slots(s, r)[k] == s.last());
                }
            }
        }
    }
}

/// A cleanup keeps the order of the kept slots and never goes past the
/// last key.
pub proof fn lemma_retained_sorted(s: Seq<(u32, WonSlot)>, r: int)
    requires
        won_slots_sorted(s),
    ensures
        won_slots_sorted(retained_slots(s, r)),
        s.len() > 0 ==> forall|k: int|
            0 <= k < retained_slots(s, r).len() ==> retained_slots(s, r)[k].0 <= s.last().0,
    decreases s.len(),
{
    if s.len() > 0 {
        let t = s.drop_last();
        assert(forall|i: int| 0 <= i < t.len() ==> t[i] == s[i]);
        assert(won_slots_sorted(t));
        lemma_retained_sorted(t, r);
        if t.len() > 0 {
            assert(t.last() == s[s.len() - 2]);
            assert(t.last().0 < s.last().0);
        }
    }
}

/// A cleanup over a table that already respects the boundary keeps it
/// whole.
pub proof fn lemma_retained_of_all_geq(s: Seq<(u32, WonSlot)>, r: int)
    requires
        forall|i: int| 0 <= i < s.len() ==> s[i].0 >= r,
    ensures
        retained_slots(s, r) == s,
    decreases s.len(),
{
    if s.len() > 0 {
        let t = s.drop_last();
        assert(forall|i: int| 0 <= i < t.len() ==> t[i] == s[i]);
        lemma_retained_of_all_geq(t, r);
        assert(retained_slots(s, r) =~= s);
    } else {
        assert(retained_slots(s, r) =~= s);
    }
}

/// Cleaning up old slots twice is a no-op after the first time: the first
/// pass leaves only slots at or past the boundary, so the second keeps
/// everything.
pub proof fn lemma_cleanup_idempotent(s: Seq<(u32, WonSlot)>, r: int)
    ensures
        retained_slots(retained_slots(s, r), r) == retained_slots(s, r),
{
    lemma_retained_geq(s, r);
    lemma_retained_of_all_geq(retained_slots(s, r), r);
}

// --- transitions --------------------------------------------------------

/// The epoch context an evaluability check computes: the current epoch's
/// staking data while that epoch has not been fully evaluated; after that
/// the next epoch's data once the best tip stands at least a transition
/// frontier beyond the previous epoch's last block; otherwise wait.
pub open spec fn spec_epoch_context(
    last_evaluated_epoch: Option<u32>,
    heights: Seq<(u32, u32)>,
    current_epoch: u32,
    best_tip_height: u32,
    transition_frontier_size: u32,
    staking: EpochData,
    next: EpochData,
) -> EpochContext {
    if !(last_evaluated_epoch matches Some(le) && le >= current_epoch) {
        EpochContext::Current(staking)
    } else if current_epoch >= 1 && (heights_lookup(heights, (current_epoch - 1) as u32) matches
    Some(h) && best_tip_height >= h + transition_frontier_size) {
        EpochContext::Next(next)
    } else {
        EpochContext::Waiting
    }
}

/// The first slot evaluated is the greater of the current global slot and
/// the epoch's first slot when evaluating the current epoch, and the slot
/// before the next epoch's first slot when evaluating the next epoch.
pub open spec fn spec_initial_slot(
    for_current: bool,
    current_global_slot: u32,
    current_epoch: u32,
    next_epoch_first_slot: u32,
) -> int {
    if for_current {
        if current_global_slot >= epoch_first_slot(current_epoch) {
            current_global_slot as int
        } else {
            epoch_first_slot(current_epoch)
        }
    } else {
        next_epoch_first_slot - 1
    }
}

impl BlockProducerVrfEvaluatorState {
    /// A fresh evaluator: idle, with no won slots and no records.
    pub fn new(time: Timestamp) -> (r: BlockProducerVrfEvaluatorState)
        ensures
            r.status == (BlockProducerVrfEvaluatorStatus::Idle { time }),
            r.won_slots@ == Seq::<(u32, WonSlot)>::empty(),
            r.current_evaluation is None,
            r.last_evaluated_epoch is None,
            r.last_block_heights@ == Seq::<(u32, u32)>::empty(),
            evaluator_wf(r),
    {
        BlockProducerVrfEvaluatorState {
            status: BlockProducerVrfEvaluatorStatus::Idle { time },
            won_slots: Vec::new(),
            current_evaluation: None,
            last_evaluated_epoch: None,
            last_block_heights: Vec::new(),
        }
    }

    /// The recorded last-block height of an epoch, newest record first.
    pub fn lookup_height(&self, epoch: u32) -> (r: Option<u32>)
        ensures
            r == heights_lookup(self.last_block_heights@, epoch),
    {
        let ghost full = self.last_block_heights@;
        let mut i: usize = self.last_block_heights.len();
        proof {
            assert(full.subrange(0, i as int) =~= full);
        }
        while i > 0
            invariant
                i <= full.len(),
                self.last_block_heights@ == full,
                heights_lookup(full, epoch) == heights_lookup(full.subrange(0, i as int), epoch),
            decreases i,
        {
            proof {
                assert(full.subrange(0, i as int).drop_last() =~= full.subrange(0, i - 1));
                assert(full.subrange(0, i as int).last() == full[i - 1]);
            }
            if self.last_block_heights[i - 1].0 == epoch {
                proof {
                    assert(heights_lookup(full.subrange(0, i as int), epoch) == Some(
                        full[i as int - 1].1,
                    ));
                }
                return Some(self.last_block_heights[i - 1].1);
            }
            i = i - 1;
        }
        proof {
            assert(full.subrange(0, 0) =~= Seq::<(u32, u32)>::empty());
        }
        None
    }

    /// Starts the evaluator from a chain tip: it waits for the persisted
    /// per-epoch heights to be loaded.
    pub fn initialize_evaluator(&mut self, time: Timestamp)
        requires
            !old(self).spec_is_initialized(),
        ensures
            final(self).status == (BlockProducerVrfEvaluatorStatus::InitialisationPending { time }),
            final(self).won_slots == old(self).won_slots,
            final(self).current_evaluation == old(self).current_evaluation,
            final(self).last_evaluated_epoch == old(self).last_evaluated_epoch,
            final(self).last_block_heights == old(self).last_block_heights,
    {
        self.status = BlockProducerVrfEvaluatorStatus::InitialisationPending { time };
    }

    /// Finishes initialisation once persistence replies, recording the
    /// previous epoch's last block height when one was persisted.
    pub fn finalize_evaluator_initialization(
        &mut self,
        previous_epoch_and_height: Option<(u32, u32)>,
        time: Timestamp,
    )
        requires
            old(self).status matches BlockProducerVrfEvaluatorStatus::InitialisationPending { .. },
        ensures
            final(self).status == (BlockProducerVrfEvaluatorStatus::Initialised { time }),
            match previous_epoch_and_height {
                Some((epoch, height)) => final(self).last_block_heights@ == old(
                    self,
                ).last_block_heights@.push((epoch, height)) && heights_lookup(
                    final(self).last_block_heights@,
                    epoch,
                ) == Some(height),
                None => final(self).last_block_heights == old(self).last_block_heights,
            },
            final(self).won_slots == old(self).won_slots,
            final(self).current_evaluation == old(self).current_evaluation,
            final(self).last_evaluated_epoch == old(self).last_evaluated_epoch,
    {
        match previous_epoch_and_height {
            Some((epoch, height)) => {
                self.last_block_heights.push((epoch, height));
                proof {
                    assert(self.last_block_heights@.drop_last() =~= old(
                        self,
                    ).last_block_heights@);
                }
            },
            None => {},
        }
        self.status = BlockProducerVrfEvaluatorStatus::Initialised { time };
    }

    /// Records the last block height seen in an epoch; the newest record
    /// wins.
    pub fn record_last_block_height(&mut self, epoch: u32, height: u32)
        ensures
            final(self).last_block_heights@ == old(self).last_block_heights@.push((epoch, height)),
            heights_lookup(final(self).last_block_heights@, epoch) == Some(height),
            forall|e: u32|
                e != epoch ==> heights_lookup(final(self).last_block_heights@, e)
                    == heights_lookup(old(self).last_block_heights@, e),
            final(self).status == old(self).status,
            final(self).won_slots == old(self).won_slots,
            final(self).current_evaluation == old(self).current_evaluation,
            final(self).last_evaluated_epoch == old(self).last_evaluated_epoch,
    {
        self.last_block_heights.push((epoch, height));
        proof {
            assert(self.last_block_heights@.drop_last() =~= old(self).last_block_heights@);
        }
    }

    /// Computes which epoch can be evaluated now and stands at the
    /// readiness check with that context.
    pub fn check_epoch_evaluability(
        &mut self,
        current_epoch_number: u32,
        current_best_tip_height: u32,
        transition_frontier_size: u32,
        staking_epoch_data: EpochData,
        next_epoch_data: EpochData,
        time: Timestamp,
    )
        requires
            old(self).spec_can_check_next_evaluation(),
        ensures
            final(self).status == (BlockProducerVrfEvaluatorStatus::ReadinessCheck {
                time,
                epoch_context: spec_epoch_context(
                    old(self).last_evaluated_epoch,
                    old(self).last_block_heights@,
                    current_epoch_number,
                    current_best_tip_height,
                    transition_frontier_size,
                    staking_epoch_data,
                    next_epoch_data,
                ),
            }),
            final(self).won_slots == old(self).won_slots,
            final(self).current_evaluation == old(self).current_evaluation,
            final(self).last_evaluated_epoch == old(self).last_evaluated_epoch,
            final(self).last_block_heights == old(self).last_block_heights,
    {
        let evaluated = match self.last_evaluated_epoch {
            Some(le) => le >= current_epoch_number,
            None => false,
        };
        let epoch_context = if !evaluated {
            EpochContext::Current(staking_epoch_data)
        } else if current_epoch_number >= 1 {
            match self.lookup_height(current_epoch_number - 1) {
                Some(h) => if (current_best_tip_height as u64) >= (h as u64)
                    + (transition_frontier_size as u64) {
                    EpochContext::Next(next_epoch_data)
                } else {
                    EpochContext::Waiting
                },
                None => EpochContext::Waiting,
            }
        } else {
            EpochContext::Waiting
        };
        self.status = BlockProducerVrfEvaluatorStatus::ReadinessCheck { time, epoch_context };
    }

    /// Snapshots the chosen epoch context for evaluation.
    pub fn initialize_epoch_evaluation(&mut self, time: Timestamp)
        requires
            old(self).status matches BlockProducerVrfEvaluatorStatus::ReadinessCheck {
                epoch_context,
                ..
            } && !(epoch_context matches EpochContext::Waiting),
        ensures
            ({
                &&& old(self).status matches BlockProducerVrfEvaluatorStatus::ReadinessCheck {
                    epoch_context: c0,
                    ..
                }
                &&& final(self).status matches
                    BlockProducerVrfEvaluatorStatus::EpochContextChosen {
                    time: t,
                    epoch_context: c,
                }
                &&& t == time
                &&& c == c0
            }),
            final(self).won_slots == old(self).won_slots,
            final(self).current_evaluation == old(self).current_evaluation,
            final(self).last_evaluated_epoch == old(self).last_evaluated_epoch,
            final(self).last_block_heights == old(self).last_block_heights,
    {
        let mut cur = BlockProducerVrfEvaluatorState::new(0);
        core::mem::swap(self, &mut cur);
        let BlockProducerVrfEvaluatorState {
            status,
            won_slots,
            current_evaluation,
            last_evaluated_epoch,
            last_block_heights,
        } = cur;
        let new_status = match status {
            BlockProducerVrfEvaluatorStatus::ReadinessCheck { epoch_context, .. } =>
                BlockProducerVrfEvaluatorStatus::EpochContextChosen { time, epoch_context },
            other => other,
        };
        *self = BlockProducerVrfEvaluatorState {
            status: new_status,
            won_slots,
            current_evaluation,
            last_evaluated_epoch,
            last_block_heights,
        };
    }

    /// Asks the ledger collaborator for the delegator table of the chosen
    /// epoch.
    pub fn begin_delegator_table_construction(&mut self, time: Timestamp)
        requires
            old(self).status matches BlockProducerVrfEvaluatorStatus::EpochContextChosen { .. },
        ensures
            ({
                &&& old(self).status matches
                    BlockProducerVrfEvaluatorStatus::EpochContextChosen { epoch_context: c0, .. }
                &&& final(self).status matches
                    BlockProducerVrfEvaluatorStatus::DelegatorTableRequested {
                    time: t,
                    epoch_context: c,
                }
                &&& t == time
                &&& c == c0
            }),
            final(self).won_slots == old(self).won_slots,
            final(self).current_evaluation == old(self).current_evaluation,
            final(self).last_evaluated_epoch == old(self).last_evaluated_epoch,
            final(self).last_block_heights == old(self).last_block_heights,
    {
        let mut cur = BlockProducerVrfEvaluatorState::new(0);
        core::mem::swap(self, &mut cur);
        let BlockProducerVrfEvaluatorState {
            status,
            won_slots,
            current_evaluation,
            last_evaluated_epoch,
            last_block_heights,
        } = cur;
        let new_status = match status {
            BlockProducerVrfEvaluatorStatus::EpochContextChosen { epoch_context, .. } =>
                BlockProducerVrfEvaluatorStatus::DelegatorTableRequested { time, epoch_context },
            other => other,
        };
        *self = BlockProducerVrfEvaluatorState {
            status: new_status,
            won_slots,
            current_evaluation,
            last_evaluated_epoch,
            last_block_heights,
        };
    }

    /// Installs the delegator table the ledger collaborator produced.
    pub fn finalize_delegator_table_construction(
        &mut self,
        delegator_table: Vec<DelegatorEntry>,
        time: Timestamp,
    )
        requires
            old(self).status matches BlockProducerVrfEvaluatorStatus::DelegatorTableRequested {
                epoch_context,
                ..
            } && !(epoch_context matches EpochContext::Waiting),
            delegator_table_unique(delegator_table@),
        ensures
            ({
                &&& final(self).status matches
                    BlockProducerVrfEvaluatorStatus::DelegatorTableConstructed {
                    epoch_context: installed,
                    ..
                }
                &&& match installed {
                    EpochContext::Current(d) => d.delegator_table matches Some(t)
                        && delegator_table_unique(t@),
                    EpochContext::Next(d) => d.delegator_table matches Some(t)
                        && delegator_table_unique(t@),
                    EpochContext::Waiting => false,
                }
            }),
            final(self).status matches BlockProducerVrfEvaluatorStatus::DelegatorTableConstructed {
                time: t,
                epoch_context: c,
            } && t == time && match old(self).status {
                BlockProducerVrfEvaluatorStatus::DelegatorTableRequested {
                    epoch_context: EpochContext::Current(d),
                    ..
                } => c == (EpochContext::Current(EpochData {
                    ledger: d.ledger,
                    seed: d.seed,
                    total_currency: d.total_currency,
                    delegator_table: Some(delegator_table),
                })),
                BlockProducerVrfEvaluatorStatus::DelegatorTableRequested {
                    epoch_context: EpochContext::Next(d),
                    ..
                } => c == (EpochContext::Next(EpochData {
                    ledger: d.ledger,
                    seed: d.seed,
                    total_currency: d.total_currency,
                    delegator_table: Some(delegator_table),
                })),
                _ => false,
            },
            final(self).won_slots == old(self).won_slots,
            final(self).current_evaluation == old(self).current_evaluation,
            final(self).last_evaluated_epoch == old(self).last_evaluated_epoch,
            final(self).last_block_heights == old(self).last_block_heights,
    {
        let mut cur = BlockProducerVrfEvaluatorState::new(0);
        core::mem::swap(self, &mut cur);
        let BlockProducerVrfEvaluatorState {
            status,
            won_slots,
            current_evaluation,
            last_evaluated_epoch,
            last_block_heights,
        } = cur;
        let new_status = match status {
            BlockProducerVrfEvaluatorStatus::DelegatorTableRequested {
                epoch_context: EpochContext::Current(d),
                ..
            } => BlockProducerVrfEvaluatorStatus::DelegatorTableConstructed {
                time,
                epoch_context: EpochContext::Current(
                    EpochData {
                        ledger: d.ledger,
                        seed: d.seed,
                        total_currency: d.total_currency,
                        delegator_table: Some(delegator_table),
                    },
                ),
            },
            BlockProducerVrfEvaluatorStatus::DelegatorTableRequested {
                epoch_context: EpochContext::Next(d),
                ..
            } => BlockProducerVrfEvaluatorStatus::DelegatorTableConstructed {
                time,
                epoch_context: EpochContext::Next(
                    EpochData {
                        ledger: d.ledger,
                        seed: d.seed,
                        total_currency: d.total_currency,
                        delegator_table: Some(delegator_table),
                    },
                ),
            },
            other => other,
        };
        *self = BlockProducerVrfEvaluatorState {
            status: new_status,
            won_slots,
            current_evaluation,
            last_evaluated_epoch,
            last_block_heights,
        };
    }

    /// Chooses the slot evaluation starts from and snapshots the current
    /// evaluation.
    pub fn select_initial_slot(
        &mut self,
        current_global_slot: u32,
        current_epoch_number: u32,
        next_epoch_first_slot: u32,
        time: Timestamp,
    ) -> (initial: u32)
        requires
            old(self).status matches BlockProducerVrfEvaluatorStatus::DelegatorTableConstructed {
                epoch_context,
                ..
            } && !(epoch_context matches EpochContext::Waiting),
            old(self).status matches BlockProducerVrfEvaluatorStatus::DelegatorTableConstructed {
                epoch_context: EpochContext::Current(_),
                ..
            } ==> epoch_first_slot(current_epoch_number) <= u32::MAX,
            old(self).status matches BlockProducerVrfEvaluatorStatus::DelegatorTableConstructed {
                epoch_context: EpochContext::Next(_),
                ..
            } ==> next_epoch_first_slot >= 1,
            current_epoch_number < u32::MAX,
            won_slots_bounded(
                old(self).won_slots@,
                spec_initial_slot(
                    old(self).status matches
                        BlockProducerVrfEvaluatorStatus::DelegatorTableConstructed {
                        epoch_context: EpochContext::Current(_),
                        ..
                    },
                    current_global_slot,
                    current_epoch_number,
                    next_epoch_first_slot,
                ),
            ),
            won_slots_sorted(old(self).won_slots@),
        ensures
            initial == spec_initial_slot(
                old(self).status matches
                    BlockProducerVrfEvaluatorStatus::DelegatorTableConstructed {
                    epoch_context: EpochContext::Current(_),
                    ..
                },
                current_global_slot,
                current_epoch_number,
                next_epoch_first_slot,
            ),
            final(self).status == (BlockProducerVrfEvaluatorStatus::SlotSelection { time }),
            final(self).current_evaluation matches Some(ce) && ce.latest_evaluated_slot == initial
                && match old(self).status {
                BlockProducerVrfEvaluatorStatus::DelegatorTableConstructed {
                    epoch_context: EpochContext::Current(d),
                    ..
                } => ce.epoch_number == current_epoch_number && ce.epoch_data == d,
                BlockProducerVrfEvaluatorStatus::DelegatorTableConstructed {
                    epoch_context: EpochContext::Next(d),
                    ..
                } => ce.epoch_number == current_epoch_number + 1 && ce.epoch_data == d,
                _ => false,
            },
            final(self).won_slots == old(self).won_slots,
            final(self).last_evaluated_epoch == old(self).last_evaluated_epoch,
            final(self).last_block_heights == old(self).last_block_heights,
            evaluator_wf(*final(self)),
    {
        let mut cur = BlockProducerVrfEvaluatorState::new(0);
        core::mem::swap(self, &mut cur);
        let BlockProducerVrfEvaluatorState {
            status,
            won_slots,
            current_evaluation: _,
            last_evaluated_epoch,
            last_block_heights,
        } = cur;
        let (initial, ce): (u32, VrfEvaluatorCurrentEvaluation) = match status {
            BlockProducerVrfEvaluatorStatus::DelegatorTableConstructed {
                epoch_context: EpochContext::Current(d),
                ..
            } => {
                let first = (current_epoch_number as u64) * SLOTS_PER_EPOCH;
                let first32 = first as u32;
                let initial = if current_global_slot >= first32 {
                    current_global_slot
                } else {
                    first32
                };
                (
                    initial,
                    VrfEvaluatorCurrentEvaluation {
                        epoch_number: current_epoch_number,
                        epoch_data: d,
                        latest_evaluated_slot: initial,
                    },
                )
            },
            BlockProducerVrfEvaluatorStatus::DelegatorTableConstructed {
                epoch_context: EpochContext::Next(d),
                ..
            } => {
                let initial = next_epoch_first_slot - 1;
                (
                    initial,
                    VrfEvaluatorCurrentEvaluation {
                        epoch_number: current_epoch_number + 1,
                        epoch_data: d,
                        latest_evaluated_slot: initial,
                    },
                )
            },
            _ => {
                (
                    0,
                    VrfEvaluatorCurrentEvaluation {
                        epoch_number: 0,
                        epoch_data: EpochData {
                            ledger: 0,
                            seed: 0,
                            total_currency: 0,
                            delegator_table: None,
                        },
                        latest_evaluated_slot: 0,
                    },
                )
            },
        };
        *self = BlockProducerVrfEvaluatorState {
            status: BlockProducerVrfEvaluatorStatus::SlotSelection { time },
            won_slots,
            current_evaluation: Some(ce),
            last_evaluated_epoch,
            last_block_heights,
        };
        initial
    }

    /// The slot trials to hand to the cryptographic collaborator for one
    /// global slot: one per delegator of the producer, in table order.
    pub fn vrf_inputs_for_slot(
        epoch_data: &EpochData,
        producer_key: u64,
        global_slot: u32,
    ) -> (r: Vec<VrfEvaluatorInput>)
        requires
            epoch_data.delegator_table is Some,
        ensures
            epoch_data.delegator_table matches Some(table) ==> r@.len() == table@.len() && forall|
                i: int,
            |
                0 <= i < r@.len() ==> r@[i] == (VrfEvaluatorInput {
                    producer_key,
                    epoch_seed: epoch_data.seed,
                    delegator_index: table@[i].index,
                    delegator_stake: table@[i].stake,
                    total_currency: epoch_data.total_currency,
                    global_slot,
                }),
    {
        let mut r: Vec<VrfEvaluatorInput> = Vec::new();
        let table = match &epoch_data.delegator_table {
            Some(table) => table,
            None => {
                return r;
            },
        };
        let mut i: usize = 0;
        while i < table.len()
            invariant
                i <= table@.len(),
                epoch_data.delegator_table matches Some(t) && t@ == table@,
                r@.len() == i,
                forall|j: int|
                    0 <= j < i ==> r@[j] == (VrfEvaluatorInput {
                        producer_key,
                        epoch_seed: epoch_data.seed,
                        delegator_index: table@[j].index,
                        delegator_stake: table@[j].stake,
                        total_currency: epoch_data.total_currency,
                        global_slot,
                    }),
            decreases table@.len() - i,
        {
            r.push(
                VrfEvaluatorInput {
                    producer_key,
                    epoch_seed: epoch_data.seed,
                    delegator_index: table[i].index,
                    delegator_stake: table[i].stake,
                    total_currency: epoch_data.total_currency,
                    global_slot,
                },
            );
            i = i + 1;
        }
        r
    }

    /// Starts walking the epoch's slots.
    pub fn begin_epoch_evaluation(&mut self, time: Timestamp)
        requires
            old(self).status matches BlockProducerVrfEvaluatorStatus::SlotSelection { .. },
        ensures
            final(self).status == (BlockProducerVrfEvaluatorStatus::EpochEvaluationPending {
                time,
            }),
            final(self).won_slots == old(self).won_slots,
            final(self).current_evaluation == old(self).current_evaluation,
            final(self).last_evaluated_epoch == old(self).last_evaluated_epoch,
            final(self).last_block_heights == old(self).last_block_heights,
    {
        self.status = BlockProducerVrfEvaluatorStatus::EpochEvaluationPending { time };
    }

    /// Hands one slot to the cryptographic collaborator; exactly one slot
    /// evaluation is in flight afterwards.
    pub fn evaluate_slot(&mut self, time: Timestamp)
        requires
            old(self).spec_is_evaluating(),
        ensures
            final(self).status == (BlockProducerVrfEvaluatorStatus::SlotRequested { time }),
            final(self).won_slots == old(self).won_slots,
            final(self).current_evaluation == old(self).current_evaluation,
            final(self).last_evaluated_epoch == old(self).last_evaluated_epoch,
            final(self).last_block_heights == old(self).last_block_heights,
    {
        self.status = BlockProducerVrfEvaluatorStatus::SlotRequested { time };
    }

    /// Acknowledges one slot evaluation: the latest evaluated slot advances
    /// by exactly one, and a winning slot is appended to the won-slot
    /// table, whose keys stay strictly increasing.
    pub fn process_slot_evaluation_success(
        &mut self,
        vrf_output: VrfEvaluationOutput,
        staking_ledger_hash: LedgerHash,
        time: Timestamp,
    )
        requires
            spec_is_enabled(
                *old(self),
                BlockProducerVrfEvaluatorAction::ProcessSlotEvaluationSuccess {
                    vrf_output,
                    staking_ledger_hash,
                },
            ),
            evaluator_wf(*old(self)),
            old(self).current_evaluation matches Some(ce) ==> ce.latest_evaluated_slot + 1
                <= u32::MAX,
        ensures
            final(self).status == (BlockProducerVrfEvaluatorStatus::SlotEvaluated { time }),
            final(self).current_evaluation matches Some(ce1) && old(self).current_evaluation
                matches Some(ce0) && ce1.epoch_number == ce0.epoch_number && ce1.epoch_data
                == ce0.epoch_data && ce1.latest_evaluated_slot == ce0.latest_evaluated_slot + 1
                && ce1.latest_evaluated_slot == vrf_output_slot(vrf_output),
            match vrf_output {
                VrfEvaluationOutput::SlotWon { global_slot, value } => final(self).won_slots@
                    == old(self).won_slots@.push(
                    (global_slot, WonSlot { vrf_value: value, staking_ledger_hash }),
                ),
                VrfEvaluationOutput::SlotLost { .. } => final(self).won_slots@ == old(
                    self,
                ).won_slots@,
            },
            evaluator_wf(*final(self)),
            final(self).last_evaluated_epoch == old(self).last_evaluated_epoch,
            final(self).last_block_heights == old(self).last_block_heights,
    {
        let mut cur = BlockProducerVrfEvaluatorState::new(0);
        core::mem::swap(self, &mut cur);
        let BlockProducerVrfEvaluatorState {
            status: _,
            mut won_slots,
            current_evaluation,
            last_evaluated_epoch,
            last_block_heights,
        } = cur;
        let ce = match current_evaluation {
            Some(ce) => ce,
            None => {
                // excluded by the enabling condition
                VrfEvaluatorCurrentEvaluation {
                    epoch_number: 0,
                    epoch_data: EpochData {
                        ledger: 0,
                        seed: 0,
                        total_currency: 0,
                        delegator_table: None,
                    },
                    latest_evaluated_slot: 0,
                }
            },
        };
        let new_latest = ce.latest_evaluated_slot + 1;
        match vrf_output {
            VrfEvaluationOutput::SlotWon { global_slot, value } => {
                let ghost orig = won_slots@;
                won_slots.push((global_slot, WonSlot { vrf_value: value, staking_ledger_hash }));
                proof {
                    assert forall|i: int, j: int|
                        0 <= i < j < won_slots@.len() implies won_slots@[i].0 < won_slots@[j].0 by {
                        if j < orig.len() {
                            assert(won_slots@[i] == orig[i]);
                            assert(won_slots@[j] == orig[j]);
                        } else {
                            assert(won_slots@[i] == orig[i]);
                            assert(orig[i].0 <= ce.latest_evaluated_slot);
                        }
                    }
                }
            },
            VrfEvaluationOutput::SlotLost { .. } => {},
        }
        *self = BlockProducerVrfEvaluatorState {
            status: BlockProducerVrfEvaluatorStatus::SlotEvaluated { time },
            won_slots,
            current_evaluation: Some(
                VrfEvaluatorCurrentEvaluation {
                    epoch_number: ce.epoch_number,
                    epoch_data: ce.epoch_data,
                    latest_evaluated_slot: new_latest,
                },
            ),
            last_evaluated_epoch,
            last_block_heights,
        };
    }

    /// Decides whether the epoch's last slot has been evaluated.
    pub fn check_epoch_bounds(
        &mut self,
        epoch_number: u32,
        latest_evaluated_global_slot: u32,
        time: Timestamp,
    )
        requires
            old(self).status matches BlockProducerVrfEvaluatorStatus::SlotEvaluated { .. },
        ensures
            final(self).status == if latest_evaluated_global_slot >= epoch_last_slot(
                epoch_number,
            ) {
                BlockProducerVrfEvaluatorStatus::EpochBoundEvaluated { time }
            } else {
                BlockProducerVrfEvaluatorStatus::EpochEvaluationPending { time }
            },
            final(self).won_slots == old(self).won_slots,
            final(self).current_evaluation == old(self).current_evaluation,
            final(self).last_evaluated_epoch == old(self).last_evaluated_epoch,
            final(self).last_block_heights == old(self).last_block_heights,
    {
        let last_slot = ((epoch_number as u64) + 1) * SLOTS_PER_EPOCH - 1;
        if (latest_evaluated_global_slot as u64) >= last_slot {
            self.status = BlockProducerVrfEvaluatorStatus::EpochBoundEvaluated { time };
        } else {
            self.status = BlockProducerVrfEvaluatorStatus::EpochEvaluationPending { time };
        }
    }

    /// Keeps walking the epoch's slots.
    pub fn continue_epoch_evaluation(&mut self, time: Timestamp)
        requires
            old(self).status matches BlockProducerVrfEvaluatorStatus::EpochBoundEvaluated { .. }
                || old(self).status matches
                BlockProducerVrfEvaluatorStatus::EpochEvaluationPending { .. },
        ensures
            final(self).status == (BlockProducerVrfEvaluatorStatus::EpochEvaluationPending {
                time,
            }),
            final(self).won_slots == old(self).won_slots,
            final(self).current_evaluation == old(self).current_evaluation,
            final(self).last_evaluated_epoch == old(self).last_evaluated_epoch,
            final(self).last_block_heights == old(self).last_block_heights,
    {
        self.status = BlockProducerVrfEvaluatorStatus::EpochEvaluationPending { time };
    }

    /// Closes the epoch: its number becomes the highest fully evaluated
    /// one and the in-flight evaluation ends.
    pub fn finish_epoch_evaluation(&mut self, epoch_number: u32, time: Timestamp)
        requires
            old(self).status matches BlockProducerVrfEvaluatorStatus::EpochBoundEvaluated { .. },
        ensures
            final(self).status == (BlockProducerVrfEvaluatorStatus::WaitingForNextEvaluation {
                time,
            }),
            final(self).last_evaluated_epoch == Some(epoch_number),
            final(self).current_evaluation is None,
            final(self).won_slots == old(self).won_slots,
            final(self).last_block_heights == old(self).last_block_heights,
    {
        self.status = BlockProducerVrfEvaluatorStatus::WaitingForNextEvaluation { time };
        self.last_evaluated_epoch = Some(epoch_number);
        self.current_evaluation = None;
    }

    /// Stands down until the chain makes another epoch evaluable.
    pub fn wait_for_next_evaluation(&mut self, time: Timestamp)
        requires
            old(self).status matches BlockProducerVrfEvaluatorStatus::ReadinessCheck { .. },
        ensures
            final(self).status == (BlockProducerVrfEvaluatorStatus::WaitingForNextEvaluation {
                time,
            }),
            final(self).won_slots == old(self).won_slots,
            final(self).current_evaluation == old(self).current_evaluation,
            final(self).last_evaluated_epoch == old(self).last_evaluated_epoch,
            final(self).last_block_heights == old(self).last_block_heights,
    {
        self.status = BlockProducerVrfEvaluatorStatus::WaitingForNextEvaluation { time };
    }

    /// Erases every won slot older than the retention boundary of the
    /// current epoch; the kept slots stay in order, and all of them lie at
    /// or past the boundary.
    pub fn cleanup_old_slots(&mut self, current_epoch_number: u32)
        requires
            won_slots_sorted(old(self).won_slots@),
        ensures
            final(self).won_slots@ == retained_slots(
                old(self).won_slots@,
                spec_retention_slot(current_epoch_number),
            ),
            won_slots_sorted(final(self).won_slots@),
            forall|k: int|
                0 <= k < final(self).won_slots@.len() ==> final(self).won_slots@[k].0
                    >= spec_retention_slot(current_epoch_number),
            final(self).status == old(self).status,
            final(self).current_evaluation == old(self).current_evaluation,
            final(self).last_evaluated_epoch == old(self).last_evaluated_epoch,
            final(self).last_block_heights == old(self).last_block_heights,
    {
        let boundary = retention_slot(current_epoch_number);
        let ghost full = self.won_slots@;
        let ghost r = spec_retention_slot(current_epoch_number);
        let mut kept: Vec<(u32, WonSlot)> = Vec::new();
        let mut i: usize = 0;
        proof {
            assert(full.subrange(0, 0) =~= Seq::<(u32, WonSlot)>::empty());
        }
        while i < self.won_slots.len()
            invariant
                i <= full.len(),
                self.won_slots@ == full,
                kept@ == retained_slots(full.subrange(0, i as int), r),
                boundary == r,
            decreases full.len() - i,
        {
            let entry = self.won_slots[i];
            proof {
                assert(full.subrange(0, i + 1 as int).drop_last() =~= full.subrange(0, i as int));
                assert(full.subrange(0, i + 1 as int).last() == full[i as int]);
            }
            if (entry.0 as u64) >= boundary {
                kept.push(entry);
            }
            i = i + 1;
        }
        proof {
            assert(full.subrange(0, full.len() as int) =~= full);
            lemma_retained_sorted(full, r);
            lemma_retained_geq(full, r);
        }
        self.won_slots = kept;
    }
}

} // verus!
