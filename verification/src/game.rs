//! The game-theory engine: payoff computation, equilibrium detection,
//! and strategy updates.
//!
//! Each task is scored independently from its behavior counters and the
//! system-wide metrics. The system is in (approximate) Nash equilibrium
//! when no task would improve its payoff by more than a fixed margin by
//! unilaterally switching strategy. Strategies switch only after a
//! sustained payoff decline (hysteresis), to prevent oscillation.

use vstd::prelude::*;

use crate::config::{COUNTER_LIMIT, MAX_TASKS, STRATEGY_HYSTERESIS};
use crate::task::{score_in_range, PayoffMetrics, Strategy, TaskControlBlock};

verus! {

/// Aggregate system metrics consumed by the payoff computation.
#[derive(Debug, Clone, Copy)]
pub struct SystemMetrics {
    /// Total ticks elapsed since system start.
    pub total_ticks: u64,
    /// Number of active tasks.
    pub active_tasks: u32,
    /// Share of active tasks that are cooperative, as a percentage.
    pub global_cooperation_ratio: u32,
    /// True when there are more active tasks than cores to serve them.
    pub overload: bool,
}

impl SystemMetrics {
    /// Fresh metrics: nothing has run, the cooperation ratio defaults to 100.
    pub fn new() -> (r: Self)
        ensures
            r.total_ticks == 0,
            r.active_tasks == 0,
            r.global_cooperation_ratio == 100,
            !r.overload,
    {
        Self { total_ticks: 0, active_tasks: 0, global_cooperation_ratio: 100, overload: false }
    }
}

/// The strategy-independent part of the payoff: deadline compliance,
/// voluntary yields, and the escalating consecutive-overrun penalty.
pub open spec fn base_payoff(p: PayoffMetrics) -> int {
    p.deadlines_met * 100 - p.deadlines_missed * 200 + p.voluntary_yields * 50
        - p.consecutive_overruns * 150
}

/// The fair-share adjustment: with `fair = total_ticks / active_tasks` and
/// `ratio = 100 * cpu_ticks_used / fair`, usage beyond twice the fair share
/// is penalized by `2 * (ratio - 200)` and usage below half of it earns
/// `50 - ratio`. The term is 0 when no tasks are active, nothing has run,
/// or the fair share rounds down to 0.
pub open spec fn fairness_term(p: PayoffMetrics, m: SystemMetrics) -> int {
    if m.active_tasks > 0 && m.total_ticks > 0 {
        let fair = m.total_ticks as int / m.active_tasks as int;
        if fair > 0 {
            let ratio = p.cpu_ticks_used * 100 / fair;
            if ratio > 200 {
                -((ratio - 200) * 2)
            } else if ratio < 50 {
                50 - ratio
            } else {
                0
            }
        } else {
            0
        }
    } else {
        0
    }
}

/// The full payoff of a task: base components plus the fair-share term,
/// multiplied by 3/2 for a cooperative task when positive, cut by 100 when
/// fewer than half the active tasks cooperate, plus half the cooperation
/// score. The order of the steps is part of the contract.
/// Kept opaque: proofs that care about the value reveal it.
#[verifier::opaque]
pub open spec fn payoff_spec(t: TaskControlBlock, m: SystemMetrics) -> int {
    let s = base_payoff(t.payoff) + fairness_term(t.payoff, m);
    let s = if t.strategy == Strategy::Cooperative && s > 0 {
        s * 3 / 2
    } else {
        s
    };
    let s = if m.global_cooperation_ratio < 50 {
        s - 100
    } else {
        s
    };
    s + t.payoff.cooperation_score / 2
}

/// The hypothetical payoff of a task under the opposite strategy: the same
/// base components with the multiplier rule flipped, the global-defection
/// penalty and the cooperation-score blend, but no fair-share term.
/// Kept opaque: proofs that care about the value reveal it.
#[verifier::opaque]
pub open spec fn alt_payoff_spec(t: TaskControlBlock, m: SystemMetrics) -> int {
    let s = base_payoff(t.payoff);
    let s = if t.strategy == Strategy::Selfish && s > 0 {
        s * 3 / 2
    } else {
        s
    };
    let s = if m.global_cooperation_ratio < 50 {
        s - 100
    } else {
        s
    };
    s + t.payoff.cooperation_score / 2
}

/// The inputs on which the payoff computation is defined without any
/// intermediate value leaving `i32`: bounded behavior counters, a
/// cooperation score inside its clamp range, and a total tick count whose
/// fair share fits in 32 bits.
pub open spec fn payoff_inputs_ok(t: TaskControlBlock, m: SystemMetrics) -> bool {
    &&& t.payoff.cpu_ticks_used <= COUNTER_LIMIT
    &&& t.payoff.deadlines_met <= COUNTER_LIMIT
    &&& t.payoff.deadlines_missed <= COUNTER_LIMIT
    &&& t.payoff.voluntary_yields <= COUNTER_LIMIT
    &&& t.payoff.consecutive_overruns <= COUNTER_LIMIT
    &&& score_in_range(t.payoff)
    &&& m.total_ticks <= u32::MAX
}

/// Under `payoff_inputs_ok`, the payoff stays well inside `i32`.
pub proof fn lemma_payoff_spec_bounded(t: TaskControlBlock, m: SystemMetrics)
    requires
        payoff_inputs_ok(t, m),
    ensures
        -600_000_000 <= payoff_spec(t, m) <= 600_000_000,
        -600_000_000 <= alt_payoff_spec(t, m) <= 600_000_000,
{
    reveal(payoff_spec);
    reveal(alt_payoff_spec);
    assert(-350_000_000 <= base_payoff(t.payoff) <= 150_000_000);
    if m.active_tasks > 0 && m.total_ticks > 0 {
        let fair = m.total_ticks as int / m.active_tasks as int;
        if fair > 0 {
            let ratio = t.payoff.cpu_ticks_used * 100 / fair;
            assert(0 <= ratio <= 100_000_000) by (nonlinear_arith)
                requires
                    fair >= 1,
                    ratio == t.payoff.cpu_ticks_used * 100 / fair,
                    0 <= t.payoff.cpu_ticks_used <= 1_000_000,
            ;
        }
    }
}

/// Compute the payoff score for a single task.
///
/// Accumulates, in order: +100 per met deadline, -200 per missed deadline,
/// +50 per voluntary yield, -150 per consecutive overrun, the fair-share
/// adjustment, the cooperative 3/2 multiplier on a positive total, the
/// global-defection penalty of 100 when fewer than half the active tasks
/// cooperate, and half the cooperation score.
pub fn compute_payoff(task: &TaskControlBlock, metrics: &SystemMetrics) -> (r: i32)
    requires
        payoff_inputs_ok(*task, *metrics),
    ensures
        r == payoff_spec(*task, *metrics),
        -600_000_000 <= r <= 600_000_000,
{
    proof {
        reveal(payoff_spec);
        lemma_payoff_spec_bounded(*task, *metrics);
    }
    let mut payoff: i32 = 0;

    payoff += task.payoff.deadlines_met as i32 * 100;
    payoff -= task.payoff.deadlines_missed as i32 * 200;
    payoff += task.payoff.voluntary_yields as i32 * 50;
    payoff -= task.payoff.consecutive_overruns as i32 * 150;

    if metrics.active_tasks > 0 && metrics.total_ticks > 0 {
        let fair_share = (metrics.total_ticks / metrics.active_tasks as u64) as u32;
        let actual = task.payoff.cpu_ticks_used;

        if fair_share > 0 {
            let ratio_wide = actual as u64 * 100 / fair_share as u64;
            assert(ratio_wide <= 100_000_000) by (nonlinear_arith)
                requires
                    fair_share >= 1,
                    ratio_wide == actual as int * 100 / fair_share as int,
                    0 <= actual <= 1_000_000,
            ;
            let usage_ratio = ratio_wide as i32;

            if usage_ratio > 200 {
                payoff -= (usage_ratio - 200) * 2;
            } else if usage_ratio < 50 {
                payoff += 50 - usage_ratio;
            }
        }
    }

    if task.strategy == Strategy::Cooperative && payoff > 0 {
        payoff = payoff * 3 / 2;
    }

    if metrics.global_cooperation_ratio < 50 {
        payoff -= 100;
    }

    payoff += task.payoff.cooperation_score / 2;

    payoff
}

/// Estimate what a task's payoff would be if it switched strategy.
///
/// A lightweight approximation: the base components with the
/// strategy-dependent multiplier flipped; the fair-share term is omitted.
pub fn estimate_alternative_payoff(task: &TaskControlBlock, metrics: &SystemMetrics) -> (r: i32)
    requires
        payoff_inputs_ok(*task, *metrics),
    ensures
        r == alt_payoff_spec(*task, *metrics),
        -600_000_000 <= r <= 600_000_000,
{
    proof {
        reveal(alt_payoff_spec);
        lemma_payoff_spec_bounded(*task, *metrics);
    }
    let mut payoff: i32 = 0;

    payoff += task.payoff.deadlines_met as i32 * 100;
    payoff -= task.payoff.deadlines_missed as i32 * 200;
    payoff += task.payoff.voluntary_yields as i32 * 50;
    payoff -= task.payoff.consecutive_overruns as i32 * 150;

    match task.strategy {
        Strategy::Cooperative => {
            // Switching to selfish would drop the multiplier: leave the total.
        },
        Strategy::Selfish => {
            // Switching to cooperative would add the multiplier.
            if payoff > 0 {
                payoff = payoff * 3 / 2;
            }
        },
    }

    if metrics.global_cooperation_ratio < 50 {
        payoff -= 100;
    }

    payoff += task.payoff.cooperation_score / 2;

    payoff
}

/// No task in the prefix would gain more than the 50-unit margin by
/// unilaterally switching strategy.
pub open spec fn equilibrium_spec(tasks: Seq<TaskControlBlock>, n: int, m: SystemMetrics) -> bool {
    forall|i: int|
        0 <= i < n && (#[trigger] tasks[i]).active ==> alt_payoff_spec(tasks[i], m) <= tasks[i].payoff.payoff
            + 50
}

/// Check whether the system is in approximate Nash equilibrium: no active
/// task's payoff under the opposite strategy exceeds its stored payoff by
/// more than 50 units.
pub fn is_in_equilibrium(
    tasks: &[TaskControlBlock; MAX_TASKS],
    task_count: usize,
    metrics: &SystemMetrics,
) -> (r: bool)
    requires
        task_count <= MAX_TASKS,
        forall|i: int|
            0 <= i < task_count && (#[trigger] tasks@[i]).active ==> payoff_inputs_ok(
                tasks@[i],
                *metrics,
            ) && tasks@[i].payoff.payoff <= i32::MAX - 50,
    ensures
        r == equilibrium_spec(tasks@, task_count as int, *metrics),
{
    let mut i: usize = 0;
    while i < task_count
        invariant
            i <= task_count,
            task_count <= MAX_TASKS,
            forall|j: int|
                0 <= j < task_count && (#[trigger] tasks@[j]).active ==> payoff_inputs_ok(
                    tasks@[j],
                    *metrics,
                ) && tasks@[j].payoff.payoff <= i32::MAX - 50,
            forall|j: int|
                0 <= j < i && (#[trigger] tasks@[j]).active ==> alt_payoff_spec(tasks@[j], *metrics)
                    <= tasks@[j].payoff.payoff + 50,
        decreases task_count - i,
    {
        if tasks[i].active {
            let current_payoff = tasks[i].payoff.payoff;
            let alt_payoff = estimate_alternative_payoff(&tasks[i], metrics);
            if alt_payoff > current_payoff + 50 {
                return false;
            }
        }
        i += 1;
    }
    true
}

/// The opposite strategy.
pub open spec fn strategy_flipped(s: Strategy) -> Strategy {
    match s {
        Strategy::Cooperative => Strategy::Selfish,
        Strategy::Selfish => Strategy::Cooperative,
    }
}

/// One strategy-update step for a task: the decline streak grows when the
/// stored payoff fell below the previous one and resets otherwise; once it
/// reaches the hysteresis depth the strategy flips and the streak resets;
/// the stored payoff becomes the new previous payoff.
pub open spec fn strategy_update_spec(t: TaskControlBlock) -> TaskControlBlock {
    let streak = if t.payoff.payoff < t.payoff.previous_payoff {
        t.payoff.decline_streak + 1
    } else {
        0
    };
    let flips = streak >= STRATEGY_HYSTERESIS;
    TaskControlBlock {
        strategy: if flips {
            strategy_flipped(t.strategy)
        } else {
            t.strategy
        },
        payoff: PayoffMetrics {
            decline_streak: if flips {
                0
            } else {
                streak as u32
            },
            previous_payoff: t.payoff.payoff,
            ..t.payoff
        },
        ..t
    }
}

/// Update task strategies based on payoff trends. A task switches strategy
/// only after `STRATEGY_HYSTERESIS` consecutive evaluation windows with
/// declining payoff.
pub fn update_strategies(
    tasks: &mut [TaskControlBlock; MAX_TASKS],
    task_count: usize,
    _metrics: &SystemMetrics,
)
    requires
        task_count <= MAX_TASKS,
        forall|i: int|
            0 <= i < task_count ==> (#[trigger] old(tasks)@[i]).payoff.decline_streak < u32::MAX,
    ensures
        forall|i: int|
            0 <= i < task_count ==> final(tasks)@[i] == if (#[trigger] old(tasks)@[i]).active {
                strategy_update_spec(old(tasks)@[i])
            } else {
                old(tasks)@[i]
            },
        forall|i: int| task_count <= i < MAX_TASKS ==> final(tasks)@[i] == old(tasks)@[i],
{
    let mut i: usize = 0;
    while i < task_count
        invariant
            i <= task_count,
            task_count <= MAX_TASKS,
            forall|j: int|
                i <= j < MAX_TASKS ==> (#[trigger] tasks@[j]) == old(tasks)@[j],
            forall|j: int|
                0 <= j < task_count ==> (#[trigger] old(tasks)@[j]).payoff.decline_streak
                    < u32::MAX,
            forall|j: int|
                0 <= j < i ==> (#[trigger] tasks@[j]) == if old(tasks)@[j].active {
                    strategy_update_spec(old(tasks)@[j])
                } else {
                    old(tasks)@[j]
                },
        decreases task_count - i,
    {
        if tasks[i].active {
            let current = tasks[i].payoff.payoff;
            let previous = tasks[i].payoff.previous_payoff;

            if current < previous {
                tasks[i].payoff.decline_streak = tasks[i].payoff.decline_streak + 1;
            } else {
                tasks[i].payoff.decline_streak = 0;
            }

            if tasks[i].payoff.decline_streak >= STRATEGY_HYSTERESIS {
                tasks[i].strategy = match tasks[i].strategy {
                    Strategy::Cooperative => Strategy::Selfish,
                    Strategy::Selfish => Strategy::Cooperative,
                };
                tasks[i].payoff.decline_streak = 0;
            }

            tasks[i].payoff.previous_payoff = current;
        }
        i += 1;
    }
}

/// The documented pairwise Prisoner's Dilemma payoff matrix, scaled by 100:
/// (C,C) = (300,300), (C,S) = (0,500), (S,C) = (500,0), (S,S) = (100,100).
pub open spec fn pd_payoff_spec(a: Strategy, b: Strategy) -> (int, int) {
    match (a, b) {
        (Strategy::Cooperative, Strategy::Cooperative) => (300, 300),
        (Strategy::Cooperative, Strategy::Selfish) => (0, 500),
        (Strategy::Selfish, Strategy::Cooperative) => (500, 0),
        (Strategy::Selfish, Strategy::Selfish) => (100, 100),
    }
}

/// Compute the pairwise Prisoner's Dilemma payoff between two strategies.
///
/// This matrix documents the system dynamics; scheduling itself consumes
/// `compute_payoff`, which folds the same incentives into one score.
pub fn prisoners_dilemma_payoff(a: Strategy, b: Strategy) -> (r: (i32, i32))
    ensures
        r.0 == pd_payoff_spec(a, b).0,
        r.1 == pd_payoff_spec(a, b).1,
{
    match (a, b) {
        (Strategy::Cooperative, Strategy::Cooperative) => (300, 300),
        (Strategy::Cooperative, Strategy::Selfish) => (0, 500),
        (Strategy::Selfish, Strategy::Cooperative) => (500, 0),
        (Strategy::Selfish, Strategy::Selfish) => (100, 100),
    }
}

/// The documented matrix is a true dilemma: mutual cooperation strictly
/// beats mutual defection.
pub proof fn lemma_mutual_cooperation_beats_defection()
    ensures
        pd_payoff_spec(Strategy::Cooperative, Strategy::Cooperative).0 > pd_payoff_spec(
            Strategy::Selfish,
            Strategy::Selfish,
        ).0,
{
}

/// A strategy toggles in one update step exactly when the payoff declined
/// and the decline streak thereby reaches the hysteresis depth; the streak
/// is zeroed by the toggle.
pub proof fn lemma_strategy_toggles_iff_hysteresis(t: TaskControlBlock)
    requires
        t.payoff.decline_streak < u32::MAX,
    ensures
        strategy_update_spec(t).strategy != t.strategy <==> (t.payoff.payoff
            < t.payoff.previous_payoff && t.payoff.decline_streak + 1 >= STRATEGY_HYSTERESIS),
        strategy_update_spec(t).strategy != t.strategy ==> strategy_update_spec(
            t,
        ).payoff.decline_streak == 0,
{
}

} // verus!
