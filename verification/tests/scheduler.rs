//! Tests for the scheduler state machine: task registration, tick
//! bookkeeping, deadline and overrun detection, the evaluation window,
//! selection, yielding, and starvation boosting.

use eqos::config::{DEFAULT_TIME_SLICE, MAX_TASKS, STACK_WORDS};
use eqos::scheduler::{Scheduler, INITIAL_XPSR};
use eqos::task::{Strategy, TaskConfig, TaskState};

fn simple_config(priority: u8) -> TaskConfig {
    TaskConfig {
        priority,
        deadline_ticks: 0,
        wcet_ticks: 0,
        affinity_mask: 0x01,
        time_slice: 0,
    }
}

#[test]
fn test_create_task_capacity() {
    let mut s = Scheduler::new();
    for i in 0..MAX_TASKS {
        let r = s.create_task(0x1000, 0x2000, simple_config(1), Strategy::Cooperative);
        assert_eq!(r, Ok(i));
    }
    assert_eq!(s.task_count, MAX_TASKS);

    // The table is full: the next registration fails and changes nothing.
    let r = s.create_task(0x1000, 0x2000, simple_config(1), Strategy::Cooperative);
    assert_eq!(r, Err(()));
    assert_eq!(s.task_count, MAX_TASKS);
    assert_eq!(s.tick_count, 0);
}

#[test]
fn test_create_task_prepares_stack_frame() {
    let mut s = Scheduler::new();
    let id = s
        .create_task(0xdead_bee0, 0x0bad_f00d, simple_config(2), Strategy::Selfish)
        .unwrap();

    let t = &s.tasks[id];
    assert!(t.active);
    assert_eq!(t.id, id);
    assert_eq!(t.state, TaskState::Ready);
    assert_eq!(t.strategy, Strategy::Selfish);
    assert_eq!(t.ticks_remaining, DEFAULT_TIME_SLICE);

    // The frame sits at the top of the stack: 13 zeroed registers, then
    // the return sink, the entry point, and the Thumb-bit status word.
    assert_eq!(t.stack_pointer, STACK_WORDS - 16);
    for w in (STACK_WORDS - 16)..(STACK_WORDS - 3) {
        assert_eq!(t.stack[w], 0);
    }
    assert_eq!(t.stack[STACK_WORDS - 3], 0x0bad_f00d);
    assert_eq!(t.stack[STACK_WORDS - 2], 0xdead_bee0);
    assert_eq!(t.stack[STACK_WORDS - 1], INITIAL_XPSR);
}

#[test]
fn test_tick_slice_expiry_requests_reschedule() {
    let mut s = Scheduler::new();
    let mut config = simple_config(1);
    config.time_slice = 3;
    s.create_task(0, 0, config, Strategy::Cooperative).unwrap();

    s.tick();
    s.tick();
    assert!(!s.needs_reschedule);
    assert_eq!(s.tasks[0].ticks_remaining, 1);

    s.tick();
    assert!(s.needs_reschedule);
    // The slice refills on expiry and the task is (still) Ready.
    assert_eq!(s.tasks[0].ticks_remaining, 3);
    assert_eq!(s.tasks[0].state, TaskState::Ready);
    assert_eq!(s.tasks[0].payoff.cpu_ticks_used, 3);
    assert_eq!(s.tasks[0].total_ticks, 3);
}

#[test]
fn test_tick_deadline_miss_and_zero_deadline() {
    let mut s = Scheduler::new();
    let mut with_deadline = simple_config(1);
    with_deadline.deadline_ticks = 5;
    s.create_task(0, 0, with_deadline, Strategy::Cooperative).unwrap();
    // The second task has no deadline: it must never record a miss.
    s.create_task(0, 0, simple_config(1), Strategy::Cooperative).unwrap();

    for _ in 0..5 {
        s.tick();
    }
    // Task 0 was still Ready when its period hit the deadline: one miss,
    // and its period restarted.
    assert_eq!(s.tasks[0].payoff.deadlines_missed, 1);
    assert_eq!(s.tasks[0].period_ticks, 0);
    // Task 1 is untouched by the sweep.
    assert_eq!(s.tasks[1].payoff.deadlines_missed, 0);

    for _ in 0..5 {
        s.tick();
    }
    assert_eq!(s.tasks[0].payoff.deadlines_missed, 2);
    assert_eq!(s.tasks[1].payoff.deadlines_missed, 0);
}

#[test]
fn test_tick_wcet_overrun_and_zero_wcet() {
    let mut s = Scheduler::new();
    let mut with_wcet = simple_config(1);
    with_wcet.time_slice = 2;
    with_wcet.wcet_ticks = 1;
    s.create_task(0, 0, with_wcet, Strategy::Selfish).unwrap();

    s.tick();
    assert_eq!(s.tasks[0].payoff.overruns, 0);
    s.tick();
    // The slice expired with period_ticks = 2 beyond the 1-tick WCET.
    assert_eq!(s.tasks[0].payoff.overruns, 1);
    assert_eq!(s.tasks[0].payoff.consecutive_overruns, 1);
    assert_eq!(s.tasks[0].payoff.cooperation_score, 80);

    // With wcet_ticks = 0 overrun detection is disabled entirely.
    let mut s2 = Scheduler::new();
    let mut no_wcet = simple_config(1);
    no_wcet.time_slice = 2;
    s2.create_task(0, 0, no_wcet, Strategy::Selfish).unwrap();
    for _ in 0..8 {
        s2.tick();
    }
    assert_eq!(s2.tasks[0].payoff.overruns, 0);
    assert_eq!(s2.tasks[0].payoff.cooperation_score, 100);
}

#[test]
fn test_evaluation_window() {
    let mut s = Scheduler::new();
    s.create_task(0, 0, simple_config(1), Strategy::Cooperative).unwrap();

    // The game evaluation publishes metrics; nothing before the tenth tick.
    for _ in 0..9 {
        s.tick();
    }
    assert_eq!(s.metrics.total_ticks, 0);
    assert_eq!(s.metrics.active_tasks, 0);

    s.tick();
    assert_eq!(s.metrics.total_ticks, 10);
    assert_eq!(s.metrics.active_tasks, 1);

    // And exactly one evaluation per window: nothing until the twentieth.
    for _ in 0..9 {
        s.tick();
    }
    assert_eq!(s.metrics.total_ticks, 10);
    s.tick();
    assert_eq!(s.metrics.total_ticks, 20);
}

#[test]
fn test_cooperation_ratio_published() {
    let mut s = Scheduler::new();
    s.create_task(0, 0, simple_config(1), Strategy::Cooperative).unwrap();
    s.create_task(0, 0, simple_config(1), Strategy::Cooperative).unwrap();
    s.create_task(0, 0, simple_config(1), Strategy::Cooperative).unwrap();
    s.create_task(0, 0, simple_config(1), Strategy::Selfish).unwrap();

    for _ in 0..10 {
        s.tick();
    }
    // 3 cooperative of 4 active tasks: 75 percent.
    assert_eq!(s.metrics.active_tasks, 4);
    assert_eq!(s.metrics.global_cooperation_ratio, 75);
    assert!(s.metrics.overload);
}

#[test]
fn test_schedule_selects_highest_priority() {
    let mut s = Scheduler::new();
    s.create_task(0, 0, simple_config(2), Strategy::Cooperative).unwrap();
    s.create_task(0, 0, simple_config(5), Strategy::Cooperative).unwrap();
    s.needs_reschedule = true;

    let next = s.schedule();
    assert_eq!(next, 1);
    assert_eq!(s.current_task, 1);
    assert!(!s.needs_reschedule);

    // Exactly one task is Running: the selected one.
    assert_eq!(s.tasks[1].state, TaskState::Running);
    assert_eq!(s.tasks[1].payoff.ticks_since_last_run, 0);
    for i in 0..MAX_TASKS {
        if i != 1 {
            assert_ne!(s.tasks[i].state, TaskState::Running);
        }
    }
}

#[test]
fn test_schedule_ties_keep_earliest_slot() {
    let mut s = Scheduler::new();
    s.create_task(0, 0, simple_config(3), Strategy::Cooperative).unwrap();
    s.create_task(0, 0, simple_config(3), Strategy::Cooperative).unwrap();

    assert_eq!(s.schedule(), 0);
}

#[test]
fn test_schedule_idle_fallback_is_stable() {
    // With nothing runnable, selection falls back to slot 0, twice in a row.
    let mut s = Scheduler::new();
    assert_eq!(s.schedule(), 0);
    assert_eq!(s.schedule(), 0);
    for i in 0..MAX_TASKS {
        assert_ne!(s.tasks[i].state, TaskState::Running);
    }
}

#[test]
fn test_schedule_blocked_fallback_is_stable() {
    let mut s = Scheduler::new();
    s.create_task(0, 0, simple_config(3), Strategy::Cooperative).unwrap();
    s.tasks[0].state = TaskState::Blocked;

    // Nothing is runnable: the fallback picks slot 0 and, as the selected
    // slot, marks it Running even though it was blocked.
    assert_eq!(s.schedule(), 0);
    assert_eq!(s.tasks[0].state, TaskState::Running);
    // A Running task is not a candidate either, so the choice repeats.
    assert_eq!(s.schedule(), 0);
}

#[test]
fn test_schedule_payoff_outranks_base_priority() {
    let mut s = Scheduler::new();
    s.create_task(0, 0, simple_config(5), Strategy::Selfish).unwrap();
    s.create_task(0, 0, simple_config(2), Strategy::Cooperative).unwrap();

    // A payoff lead of 400 adds 4 effective priority levels: 2 + 4 > 5.
    s.tasks[1].payoff.payoff = 400;
    assert_eq!(s.schedule(), 1);
}

#[test]
fn test_yield_current_records_and_requests_reschedule() {
    let mut s = Scheduler::new();
    let mut config = simple_config(1);
    config.time_slice = 4;
    s.create_task(0, 0, config, Strategy::Cooperative).unwrap();
    s.schedule();
    s.tick();
    assert_eq!(s.tasks[0].ticks_remaining, 3);

    s.yield_current();
    assert_eq!(s.tasks[0].payoff.voluntary_yields, 1);
    assert_eq!(s.tasks[0].payoff.cooperation_score, 110);
    assert_eq!(s.tasks[0].state, TaskState::Ready);
    assert_eq!(s.tasks[0].ticks_remaining, 4);
    assert!(s.needs_reschedule);
}

#[test]
fn test_yield_without_tasks_is_a_no_op() {
    let mut s = Scheduler::new();
    s.yield_current();
    assert!(!s.needs_reschedule);
    assert_eq!(s.task_count, 0);
}

#[test]
fn test_starvation_boost_applied_in_evaluation() {
    let mut s = Scheduler::new();
    s.create_task(0, 0, simple_config(1), Strategy::Cooperative).unwrap();
    s.create_task(0, 0, simple_config(1), Strategy::Cooperative).unwrap();

    // Task 1 has already waited 100 ticks without CPU.
    s.tasks[1].payoff.ticks_since_last_run = 100;

    for _ in 0..10 {
        s.tick();
    }
    // At the evaluation: fair share 10/2 = 5; task 1 used no CPU, earning
    // the modest-usage bonus of 50, the cooperative multiplier (75) and
    // half its score (125), then the starvation boost of 500.
    assert_eq!(s.tasks[1].payoff.payoff, 625);
    // Task 0 used twice the fair share exactly: ratio 200, no penalty.
    assert_eq!(s.tasks[0].payoff.payoff, 50);
    assert!(s.needs_reschedule);
}

#[test]
fn test_save_context_records_word_index() {
    let mut s = Scheduler::new();
    s.create_task(0, 0, simple_config(1), Strategy::Cooperative).unwrap();
    s.schedule();

    // A context switch pushed 8 more words below the prepared frame.
    s.save_context(STACK_WORDS - 24);
    assert_eq!(s.tasks[0].stack_pointer, STACK_WORDS - 24);
}
