//! Tests for the task model: control-block initialization, metric
//! recording, priority and affinity.

use eqos::config::DEFAULT_TIME_SLICE;
use eqos::task::{Strategy, TaskConfig, TaskControlBlock, TaskState};

#[test]
fn test_tcb_initialization() {
    let mut tcb = TaskControlBlock::empty();
    assert!(!tcb.active);
    assert_eq!(tcb.state, TaskState::Suspended);

    let config = TaskConfig {
        priority: 5,
        deadline_ticks: 100,
        wcet_ticks: 20,
        affinity_mask: 0x01,
        time_slice: 15,
    };
    tcb.init(0, config, Strategy::Cooperative);

    assert!(tcb.active);
    assert_eq!(tcb.state, TaskState::Ready);
    assert_eq!(tcb.config.priority, 5);
    assert_eq!(tcb.strategy, Strategy::Cooperative);
    assert_eq!(tcb.ticks_remaining, 15);
    assert_eq!(tcb.payoff.cooperation_score, 100);
}

#[test]
fn test_yield_recording() {
    let mut tcb = TaskControlBlock::empty();
    let config = TaskConfig {
        priority: 3,
        deadline_ticks: 0,
        wcet_ticks: 10,
        affinity_mask: 0x01,
        time_slice: 0,
    };
    tcb.init(1, config, Strategy::Cooperative);

    tcb.record_yield();
    assert_eq!(tcb.payoff.voluntary_yields, 1);
    assert_eq!(tcb.payoff.cooperation_score, 110);

    // Score capped at 500
    tcb.payoff.cooperation_score = 495;
    tcb.record_yield();
    assert_eq!(tcb.payoff.cooperation_score, 500);
}

#[test]
fn test_overrun_recording() {
    let mut tcb = TaskControlBlock::empty();
    let config = TaskConfig {
        priority: 3,
        deadline_ticks: 0,
        wcet_ticks: 10,
        affinity_mask: 0x01,
        time_slice: 0,
    };
    tcb.init(2, config, Strategy::Selfish);

    tcb.record_overrun();
    assert_eq!(tcb.payoff.overruns, 1);
    assert_eq!(tcb.payoff.consecutive_overruns, 1);
    assert_eq!(tcb.payoff.cooperation_score, 80);

    // Score floored at 0
    tcb.payoff.cooperation_score = 10;
    tcb.record_overrun();
    assert_eq!(tcb.payoff.cooperation_score, 0);
}

#[test]
fn test_effective_priority() {
    let mut tcb = TaskControlBlock::empty();
    let config = TaskConfig {
        priority: 5,
        deadline_ticks: 0,
        wcet_ticks: 10,
        affinity_mask: 0x01,
        time_slice: 0,
    };
    tcb.init(3, config, Strategy::Cooperative);

    // With positive payoff
    tcb.payoff.payoff = 300;
    assert_eq!(tcb.effective_priority(), 8);

    // With negative payoff (floored at 0)
    tcb.payoff.payoff = -1000;
    assert_eq!(tcb.effective_priority(), 0);
}

#[test]
fn test_affinity() {
    let mut tcb = TaskControlBlock::empty();
    let config = TaskConfig {
        priority: 3,
        deadline_ticks: 0,
        wcet_ticks: 10,
        affinity_mask: 0b0101, // cores 0 and 2
        time_slice: 0,
    };
    tcb.init(4, config, Strategy::Cooperative);

    assert!(tcb.can_run_on_core(0));
    assert!(!tcb.can_run_on_core(1));
    assert!(tcb.can_run_on_core(2));
}

#[test]
fn test_yield_then_overrun_nets_minus_ten() {
    let mut tcb = TaskControlBlock::empty();
    let config = TaskConfig {
        priority: 3,
        deadline_ticks: 0,
        wcet_ticks: 10,
        affinity_mask: 0x01,
        time_slice: 0,
    };
    tcb.init(1, config, Strategy::Cooperative);

    // In the middle of the range the net change is exactly -10.
    tcb.payoff.cooperation_score = 250;
    tcb.record_yield();
    tcb.record_overrun();
    assert_eq!(tcb.payoff.cooperation_score, 240);

    // Near the cap the raise clamps first: 495 -> 500 -> 480.
    tcb.payoff.cooperation_score = 495;
    tcb.record_yield();
    tcb.record_overrun();
    assert_eq!(tcb.payoff.cooperation_score, 480);

    // Near the floor the cut clamps: 5 -> 15 -> 0.
    tcb.payoff.cooperation_score = 5;
    tcb.record_yield();
    tcb.record_overrun();
    assert_eq!(tcb.payoff.cooperation_score, 0);
}

#[test]
fn test_metrics_reset() {
    let mut tcb = TaskControlBlock::empty();
    let config = TaskConfig {
        priority: 2,
        deadline_ticks: 10,
        wcet_ticks: 5,
        affinity_mask: 0x01,
        time_slice: 0,
    };
    tcb.init(7, config, Strategy::Selfish);
    tcb.record_overrun();
    tcb.record_yield();
    tcb.payoff.payoff = -123;

    tcb.payoff.reset();
    assert_eq!(tcb.payoff.cooperation_score, 100);
    assert_eq!(tcb.payoff.overruns, 0);
    assert_eq!(tcb.payoff.voluntary_yields, 0);
    assert_eq!(tcb.payoff.payoff, 0);
}

#[test]
fn test_affinity_highest_core() {
    let mut tcb = TaskControlBlock::empty();
    let config = TaskConfig {
        priority: 1,
        deadline_ticks: 0,
        wcet_ticks: 0,
        affinity_mask: 0x8000_0000,
        time_slice: 0,
    };
    tcb.init(5, config, Strategy::Cooperative);

    assert!(!tcb.can_run_on_core(0));
    assert!(tcb.can_run_on_core(31));
}

#[test]
fn test_deadline_met_resets_consecutive_overruns() {
    let mut tcb = TaskControlBlock::empty();
    let config = TaskConfig {
        priority: 1,
        deadline_ticks: 50,
        wcet_ticks: 10,
        affinity_mask: 0x01,
        time_slice: 0,
    };
    tcb.init(6, config, Strategy::Cooperative);

    tcb.record_overrun();
    tcb.record_overrun();
    assert_eq!(tcb.payoff.consecutive_overruns, 2);

    tcb.record_deadline_met();
    assert_eq!(tcb.payoff.deadlines_met, 1);
    assert_eq!(tcb.payoff.consecutive_overruns, 0);
    // The total overrun count is not forgiven.
    assert_eq!(tcb.payoff.overruns, 2);

    tcb.record_deadline_missed();
    assert_eq!(tcb.payoff.deadlines_missed, 1);
}

#[test]
fn test_effective_time_slice_default() {
    let config = TaskConfig {
        priority: 1,
        deadline_ticks: 0,
        wcet_ticks: 10,
        affinity_mask: 0x01,
        time_slice: 0,
    };
    assert_eq!(config.effective_time_slice(), DEFAULT_TIME_SLICE);
}
