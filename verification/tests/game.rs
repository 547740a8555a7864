//! Tests for the game engine: payoff computation, equilibrium detection,
//! strategy hysteresis, and the documented Prisoner's Dilemma matrix.

use eqos::config::{MAX_TASKS, STRATEGY_HYSTERESIS};
use eqos::game::{
    compute_payoff, estimate_alternative_payoff, is_in_equilibrium, prisoners_dilemma_payoff,
    update_strategies, SystemMetrics,
};
use eqos::task::{Strategy, TaskConfig, TaskControlBlock};

fn make_test_task(id: usize, strategy: Strategy, priority: u8) -> TaskControlBlock {
    let mut tcb = TaskControlBlock::empty();
    let config = TaskConfig {
        priority,
        deadline_ticks: 100,
        wcet_ticks: 20,
        affinity_mask: 0x01,
        time_slice: 10,
    };
    tcb.init(id, config, strategy);
    tcb
}

fn default_metrics() -> SystemMetrics {
    SystemMetrics {
        total_ticks: 1000,
        active_tasks: 4,
        global_cooperation_ratio: 75,
        overload: false,
    }
}

#[test]
fn test_payoff_deadline_met() {
    let mut task = make_test_task(0, Strategy::Cooperative, 3);
    task.payoff.deadlines_met = 5;
    let metrics = default_metrics();

    let payoff = compute_payoff(&task, &metrics);
    // Should include 5x100 = 500 for deadlines, plus cooperation multiplier, plus coop score
    assert!(payoff > 500, "Payoff should include deadline bonus: {}", payoff);
}

#[test]
fn test_payoff_deadline_missed_penalty() {
    let mut task = make_test_task(0, Strategy::Cooperative, 3);
    task.payoff.deadlines_missed = 3;
    let metrics = default_metrics();

    let payoff = compute_payoff(&task, &metrics);
    // -600 from misses, mitigated by coop score
    assert!(payoff < 0, "Payoff should be negative for missed deadlines: {}", payoff);
}

#[test]
fn test_payoff_overrun_escalation() {
    let mut task = make_test_task(0, Strategy::Selfish, 3);
    task.payoff.consecutive_overruns = 5;
    let metrics = default_metrics();

    let payoff = compute_payoff(&task, &metrics);
    // -750 from overruns
    assert!(payoff < -500, "Overrun penalty should be severe: {}", payoff);
}

#[test]
fn test_equilibrium_detection() {
    let mut tasks = [TaskControlBlock::empty(); MAX_TASKS];
    let metrics = default_metrics();

    // Two cooperative tasks with similar payoffs
    tasks[0] = make_test_task(0, Strategy::Cooperative, 3);
    tasks[0].payoff.payoff = 300;
    tasks[1] = make_test_task(1, Strategy::Cooperative, 3);
    tasks[1].payoff.payoff = 280;

    // When payoffs are similar, should be in equilibrium
    // (switching strategy wouldn't significantly improve either)
    let eq = is_in_equilibrium(&tasks, 2, &metrics);
    // This depends on the estimate — just verify it runs without panic
    let _ = eq;
}

#[test]
fn test_strategy_update_hysteresis() {
    let mut tasks = [TaskControlBlock::empty(); MAX_TASKS];
    let metrics = default_metrics();
    tasks[0] = make_test_task(0, Strategy::Selfish, 3);

    // Simulate declining payoff over STRATEGY_HYSTERESIS windows
    for i in 0..STRATEGY_HYSTERESIS {
        tasks[0].payoff.payoff = 100 - (i as i32 * 50);
        tasks[0].payoff.previous_payoff = 150 - (i as i32 * 50);
        update_strategies(&mut tasks, 1, &metrics);
    }

    // After enough decline, strategy should have switched
    assert_eq!(
        tasks[0].strategy,
        Strategy::Cooperative,
        "Task should switch from Selfish to Cooperative after sustained decline"
    );
}

#[test]
fn test_prisoners_dilemma_encoding() {
    let (a, b) = prisoners_dilemma_payoff(Strategy::Cooperative, Strategy::Cooperative);
    assert_eq!((a, b), (300, 300), "Mutual cooperation: both get high payoff");

    let (a, b) = prisoners_dilemma_payoff(Strategy::Selfish, Strategy::Selfish);
    assert_eq!((a, b), (100, 100), "Mutual defection: both get low payoff");

    let (a, b) = prisoners_dilemma_payoff(Strategy::Cooperative, Strategy::Selfish);
    assert_eq!(a, 0, "Cooperator gets exploited");
    assert_eq!(b, 500, "Defector gets high payoff");

    // Verify: mutual cooperation beats mutual defection
    let (cc, _) = prisoners_dilemma_payoff(Strategy::Cooperative, Strategy::Cooperative);
    let (dd, _) = prisoners_dilemma_payoff(Strategy::Selfish, Strategy::Selfish);
    assert!(cc > dd, "Mutual cooperation must beat mutual defection");
}

#[test]
fn test_payoff_exact_value() {
    // 5 met deadlines: base 500; fair share 1000/4 = 250, usage ratio 0 < 50
    // earns +50; cooperative multiplier on 550 gives 825; ratio 75 incurs no
    // defection penalty; half the neutral score adds 50.
    let mut task = make_test_task(0, Strategy::Cooperative, 3);
    task.payoff.deadlines_met = 5;
    let metrics = default_metrics();
    assert_eq!(compute_payoff(&task, &metrics), 875);
}

#[test]
fn test_alternative_payoff_exact_value() {
    // Same task: the alternative (selfish) drops the multiplier and the
    // fair-share term: 500 + 50 = 550.
    let mut task = make_test_task(0, Strategy::Cooperative, 3);
    task.payoff.deadlines_met = 5;
    let metrics = default_metrics();
    assert_eq!(estimate_alternative_payoff(&task, &metrics), 550);

    // A selfish task switching to cooperative gains the multiplier.
    let mut selfish = make_test_task(1, Strategy::Selfish, 3);
    selfish.payoff.deadlines_met = 5;
    assert_eq!(estimate_alternative_payoff(&selfish, &metrics), 800);
}

#[test]
fn test_fair_share_boundary() {
    // Two active tasks over 1000 ticks: fair share 500. Consuming exactly
    // twice the fair share (ratio 200) is the boundary: no penalty.
    let metrics = SystemMetrics {
        total_ticks: 1000,
        active_tasks: 2,
        global_cooperation_ratio: 75,
        overload: false,
    };
    let mut hog = make_test_task(0, Strategy::Selfish, 3);
    hog.payoff.cpu_ticks_used = 1000;
    assert_eq!(compute_payoff(&hog, &metrics), 50);

    // Just past the boundary (ratio 201) the 2 * (ratio - 200) term bites.
    hog.payoff.cpu_ticks_used = 1005;
    assert_eq!(compute_payoff(&hog, &metrics), 48);

    // Modest usage below half the fair share earns 50 - ratio.
    hog.payoff.cpu_ticks_used = 100;
    assert_eq!(compute_payoff(&hog, &metrics), 80);
}

#[test]
fn test_payoff_no_active_tasks_or_ticks() {
    // With no active tasks or no elapsed ticks the fair-share term is
    // skipped entirely; only half the cooperation score remains.
    let mut task = make_test_task(0, Strategy::Selfish, 3);
    task.payoff.cpu_ticks_used = 12345;

    let no_active = SystemMetrics {
        total_ticks: 1000,
        active_tasks: 0,
        global_cooperation_ratio: 100,
        overload: false,
    };
    assert_eq!(compute_payoff(&task, &no_active), 50);

    let no_ticks = SystemMetrics {
        total_ticks: 0,
        active_tasks: 4,
        global_cooperation_ratio: 100,
        overload: false,
    };
    assert_eq!(compute_payoff(&task, &no_ticks), 50);
}

#[test]
fn test_global_defection_penalty() {
    // Below a 50 percent cooperation ratio everyone loses 100.
    let metrics = SystemMetrics {
        total_ticks: 0,
        active_tasks: 0,
        global_cooperation_ratio: 49,
        overload: false,
    };
    let task = make_test_task(0, Strategy::Selfish, 3);
    assert_eq!(compute_payoff(&task, &metrics), -50);
}

#[test]
fn test_not_in_equilibrium_when_switching_helps() {
    let mut tasks = [TaskControlBlock::empty(); MAX_TASKS];
    let metrics = default_metrics();

    // A selfish task with a large positive base would gain the 3/2
    // multiplier by switching: alternative 1550 exceeds its stored payoff
    // by far more than the 50-unit margin.
    tasks[0] = make_test_task(0, Strategy::Selfish, 3);
    tasks[0].payoff.deadlines_met = 10;
    tasks[0].payoff.payoff = 0;

    assert!(!is_in_equilibrium(&tasks, 1, &metrics));
}

#[test]
fn test_strategy_toggle_resets_streak_and_reverses() {
    let mut tasks = [TaskControlBlock::empty(); MAX_TASKS];
    let metrics = default_metrics();

    // A cooperative task under sustained decline defects.
    tasks[0] = make_test_task(0, Strategy::Cooperative, 3);
    for i in 0..STRATEGY_HYSTERESIS {
        tasks[0].payoff.payoff = -(i as i32) * 10 - 10;
        tasks[0].payoff.previous_payoff = -(i as i32) * 10;
        update_strategies(&mut tasks, 1, &metrics);
    }
    assert_eq!(tasks[0].strategy, Strategy::Selfish);
    assert_eq!(tasks[0].payoff.decline_streak, 0);
    assert_eq!(tasks[0].payoff.previous_payoff, -30);

    // A non-declining round resets nothing further and keeps the strategy.
    tasks[0].payoff.payoff = 100;
    tasks[0].payoff.previous_payoff = 50;
    update_strategies(&mut tasks, 1, &metrics);
    assert_eq!(tasks[0].strategy, Strategy::Selfish);
    assert_eq!(tasks[0].payoff.decline_streak, 0);
}

#[test]
fn test_cooperation_vs_selfish_payoff() {
    let metrics = default_metrics();

    let mut coop_task = make_test_task(0, Strategy::Cooperative, 3);
    coop_task.payoff.deadlines_met = 3;
    coop_task.payoff.voluntary_yields = 5;

    let mut selfish_task = make_test_task(1, Strategy::Selfish, 3);
    selfish_task.payoff.deadlines_met = 3;
    selfish_task.payoff.voluntary_yields = 0;
    selfish_task.payoff.consecutive_overruns = 2;

    let coop_payoff = compute_payoff(&coop_task, &metrics);
    let selfish_payoff = compute_payoff(&selfish_task, &metrics);

    assert!(
        coop_payoff > selfish_payoff,
        "Cooperative task should have higher payoff than selfish: {} vs {}",
        coop_payoff,
        selfish_payoff
    );
}
