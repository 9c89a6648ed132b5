use mina_node::vrf_evaluator::{
    retention_slot, BlockProducerVrfEvaluatorAction, BlockProducerVrfEvaluatorState,
    BlockProducerVrfEvaluatorStatus, DelegatorEntry, EpochContext, EpochData,
    VrfEvaluationOutput, VrfEvaluatorCurrentEvaluation, WonSlot,
};

fn epoch_data(ledger: u64) -> EpochData {
    EpochData { ledger, seed: 1, total_currency: 1_000_000, delegator_table: None }
}

fn won(slot: u32) -> (u32, WonSlot) {
    (slot, WonSlot { vrf_value: 5, staking_ledger_hash: 77 })
}

#[test]
fn epoch_transition_chooses_current_epoch_first() {
    let mut st = BlockProducerVrfEvaluatorState::new(0);
    assert!(matches!(st.status, BlockProducerVrfEvaluatorStatus::Idle { .. }));
    st.initialize_evaluator(1);
    assert!(matches!(st.status, BlockProducerVrfEvaluatorStatus::InitialisationPending { .. }));
    st.finalize_evaluator_initialization(Some((0, 50)), 2);
    assert!(matches!(st.status, BlockProducerVrfEvaluatorStatus::Initialised { .. }));
    assert_eq!(st.lookup_height(0), Some(50));
    st.check_epoch_evaluability(1, 100, 290, epoch_data(11), epoch_data(22), 3);
    match &st.status {
        BlockProducerVrfEvaluatorStatus::ReadinessCheck {
            epoch_context: EpochContext::Current(d),
            ..
        } => assert_eq!(d.ledger, 11),
        other => panic!("expected the current epoch's context, got {:?}", other),
    }
}

fn initialised_with_epoch_1_done() -> BlockProducerVrfEvaluatorState {
    BlockProducerVrfEvaluatorState {
        status: BlockProducerVrfEvaluatorStatus::Initialised { time: 0 },
        won_slots: Vec::new(),
        current_evaluation: None,
        last_evaluated_epoch: Some(1),
        last_block_heights: vec![(0, 50)],
    }
}

#[test]
fn next_epoch_needs_a_finalised_staking_ledger() {
    // epoch 1 fully evaluated, epoch 0 ended at height 50, frontier 290:
    // height 340 unlocks the next epoch, height 300 does not
    let mut st = initialised_with_epoch_1_done();
    st.check_epoch_evaluability(1, 340, 290, epoch_data(11), epoch_data(22), 1);
    match &st.status {
        BlockProducerVrfEvaluatorStatus::ReadinessCheck {
            epoch_context: EpochContext::Next(d),
            ..
        } => assert_eq!(d.ledger, 22),
        other => panic!("expected the next epoch's context, got {:?}", other),
    }

    let mut st = initialised_with_epoch_1_done();
    st.check_epoch_evaluability(1, 300, 290, epoch_data(11), epoch_data(22), 1);
    assert!(matches!(
        st.status,
        BlockProducerVrfEvaluatorStatus::ReadinessCheck { epoch_context: EpochContext::Waiting, .. }
    ));
}

fn slot_requested_at_99() -> BlockProducerVrfEvaluatorState {
    BlockProducerVrfEvaluatorState {
        status: BlockProducerVrfEvaluatorStatus::SlotRequested { time: 0 },
        won_slots: vec![won(90), won(95)],
        current_evaluation: Some(VrfEvaluatorCurrentEvaluation {
            epoch_number: 0,
            epoch_data: epoch_data(77),
            latest_evaluated_slot: 99,
        }),
        last_evaluated_epoch: None,
        last_block_heights: Vec::new(),
    }
}

#[test]
fn slot_acknowledgement_guard_takes_only_the_next_slot() {
    let st = slot_requested_at_99();
    let too_far = BlockProducerVrfEvaluatorAction::ProcessSlotEvaluationSuccess {
        vrf_output: VrfEvaluationOutput::SlotLost { global_slot: 101 },
        staking_ledger_hash: 77,
    };
    assert!(!too_far.is_enabled(&st));
    let wrong_ledger = BlockProducerVrfEvaluatorAction::ProcessSlotEvaluationSuccess {
        vrf_output: VrfEvaluationOutput::SlotLost { global_slot: 100 },
        staking_ledger_hash: 78,
    };
    assert!(!wrong_ledger.is_enabled(&st));
    let next = BlockProducerVrfEvaluatorAction::ProcessSlotEvaluationSuccess {
        vrf_output: VrfEvaluationOutput::SlotLost { global_slot: 100 },
        staking_ledger_hash: 77,
    };
    assert!(next.is_enabled(&st));
}

#[test]
fn winning_slot_is_appended_in_key_order_and_latest_advances() {
    let mut st = slot_requested_at_99();
    st.process_slot_evaluation_success(
        VrfEvaluationOutput::SlotWon { global_slot: 100, value: 5 },
        77,
        1,
    );
    assert!(matches!(st.status, BlockProducerVrfEvaluatorStatus::SlotEvaluated { .. }));
    assert_eq!(st.current_evaluation.as_ref().unwrap().latest_evaluated_slot, 100);
    let keys: Vec<u32> = st.won_slots.iter().map(|(s, _)| *s).collect();
    assert_eq!(keys, vec![90, 95, 100]);
}

#[test]
fn losing_slot_advances_without_recording() {
    let mut st = slot_requested_at_99();
    st.process_slot_evaluation_success(VrfEvaluationOutput::SlotLost { global_slot: 100 }, 77, 1);
    assert_eq!(st.current_evaluation.as_ref().unwrap().latest_evaluated_slot, 100);
    assert_eq!(st.won_slots.len(), 2);
}

#[test]
fn retention_slot_is_first_slot_of_previous_epoch() {
    assert_eq!(retention_slot(0), 0);
    assert_eq!(retention_slot(1), 0);
    assert_eq!(retention_slot(2), 7140);
    assert_eq!(retention_slot(3), 14280);
}

#[test]
fn cleanup_twice_is_a_no_op_after_the_first() {
    let mut st = BlockProducerVrfEvaluatorState {
        status: BlockProducerVrfEvaluatorStatus::Initialised { time: 0 },
        won_slots: vec![won(5), won(7100), won(7150), won(20000)],
        current_evaluation: None,
        last_evaluated_epoch: None,
        last_block_heights: Vec::new(),
    };
    let cleanup = BlockProducerVrfEvaluatorAction::CleanupOldSlots { current_epoch_number: 2 };
    assert!(cleanup.is_enabled(&st));
    st.cleanup_old_slots(2);
    let keys: Vec<u32> = st.won_slots.iter().map(|(s, _)| *s).collect();
    assert_eq!(keys, vec![7150, 20000]);
    // the second cleanup is disabled and changes nothing
    let cleanup = BlockProducerVrfEvaluatorAction::CleanupOldSlots { current_epoch_number: 2 };
    assert!(!cleanup.is_enabled(&st));
    st.cleanup_old_slots(2);
    let keys: Vec<u32> = st.won_slots.iter().map(|(s, _)| *s).collect();
    assert_eq!(keys, vec![7150, 20000]);
}

#[test]
fn full_epoch_walk_reaches_waiting() {
    let mut st = BlockProducerVrfEvaluatorState::new(0);
    st.initialize_evaluator(1);
    st.finalize_evaluator_initialization(None, 2);
    st.check_epoch_evaluability(0, 10, 290, epoch_data(11), epoch_data(22), 3);
    st.initialize_epoch_evaluation(4);
    assert!(matches!(st.status, BlockProducerVrfEvaluatorStatus::EpochContextChosen { .. }));
    st.begin_delegator_table_construction(5);
    assert!(matches!(st.status, BlockProducerVrfEvaluatorStatus::DelegatorTableRequested { .. }));
    st.finalize_delegator_table_construction(Vec::new(), 6);
    match &st.status {
        BlockProducerVrfEvaluatorStatus::DelegatorTableConstructed {
            epoch_context: EpochContext::Current(d),
            ..
        } => {
            assert_eq!(d.ledger, 11);
            assert_eq!(d.delegator_table.as_ref().unwrap().len(), 0);
        },
        other => panic!("expected a constructed table, got {:?}", other),
    }
    // current epoch 0, current global slot 3: evaluation starts after slot 3
    let initial = st.select_initial_slot(3, 0, 7140, 7);
    assert_eq!(initial, 3);
    st.begin_epoch_evaluation(8);
    st.evaluate_slot(9);
    assert!(matches!(st.status, BlockProducerVrfEvaluatorStatus::SlotRequested { .. }));
    st.process_slot_evaluation_success(VrfEvaluationOutput::SlotLost { global_slot: 4 }, 11, 10);
    // slot 4 is far from the epoch bound: the walk continues
    st.check_epoch_bounds(0, 4, 11);
    assert!(matches!(st.status, BlockProducerVrfEvaluatorStatus::EpochEvaluationPending { .. }));
    st.evaluate_slot(12);
    st.process_slot_evaluation_success(VrfEvaluationOutput::SlotLost { global_slot: 5 }, 11, 13);
    // pretend the bound is reached for slot 7139 of epoch 0
    st.status = BlockProducerVrfEvaluatorStatus::SlotEvaluated { time: 14 };
    st.check_epoch_bounds(0, 7139, 15);
    assert!(matches!(st.status, BlockProducerVrfEvaluatorStatus::EpochBoundEvaluated { .. }));
    st.finish_epoch_evaluation(0, 16);
    assert!(matches!(st.status, BlockProducerVrfEvaluatorStatus::WaitingForNextEvaluation { .. }));
    assert_eq!(st.last_evaluated_epoch, Some(0));
    assert!(st.current_evaluation.is_none());
}

#[test]
fn vrf_inputs_cover_every_delegator_in_order() {
    let data = EpochData {
        ledger: 11,
        seed: 99,
        total_currency: 1_000_000,
        delegator_table: Some(vec![
            DelegatorEntry { index: 0, pub_key: 100, stake: 10 },
            DelegatorEntry { index: 3, pub_key: 101, stake: 20 },
        ]),
    };
    let inputs = BlockProducerVrfEvaluatorState::vrf_inputs_for_slot(&data, 55, 7200);
    assert_eq!(inputs.len(), 2);
    assert_eq!(inputs[0].delegator_index, 0);
    assert_eq!(inputs[0].delegator_stake, 10);
    assert_eq!(inputs[1].delegator_index, 3);
    assert_eq!(inputs[1].delegator_stake, 20);
    assert!(inputs.iter().all(|i| i.producer_key == 55 && i.epoch_seed == 99 && i.global_slot == 7200));
}

#[test]
fn recorded_heights_prefer_the_newest() {
    let mut st = BlockProducerVrfEvaluatorState::new(0);
    st.record_last_block_height(3, 60);
    st.record_last_block_height(4, 70);
    st.record_last_block_height(3, 65);
    assert_eq!(st.lookup_height(3), Some(65));
    assert_eq!(st.lookup_height(4), Some(70));
    assert_eq!(st.lookup_height(5), None);
}
