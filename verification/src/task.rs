//! The task model: control block, configuration, strategy and payoff metrics.
//!
//! Each task is a player in the scheduling game, with its own strategy,
//! payoff history, and execution state. The pure per-task operations
//! (recording yields, overruns and deadline events, effective priority,
//! runnability) live here.

use vstd::prelude::*;

use crate::config::{COUNTER_LIMIT, DEFAULT_TIME_SLICE, STACK_WORDS};

verus! {

/// Execution state of a task in the scheduler's state machine.
#[derive(Debug, Clone, Copy, PartialEq, Eq, Structural)]
pub enum TaskState {
    /// Ready to run, waiting for selection.
    Ready,
    /// Currently executing on the CPU.
    Running,
    /// Blocked waiting for an event or resource.
    Blocked,
    /// Suspended by the kernel (not schedulable).
    Suspended,
    /// Completed; never scheduled again.
    Terminated,
}

/// Behavioral strategy of a task in the scheduling game: its current move
/// in the iterated Prisoner's Dilemma.
#[derive(Debug, Clone, Copy, PartialEq, Eq, Structural)]
pub enum Strategy {
    /// Yields voluntarily, respects deadlines, shares CPU fairly;
    /// receives payoff bonuses.
    Cooperative,
    /// Maximizes its own CPU consumption; gains short-term priority but
    /// accumulates penalties over time.
    Selfish,
}

/// Static configuration for a task, immutable after creation.
#[derive(Debug, Clone, Copy)]
pub struct TaskConfig {
    /// Base priority (higher = more important), before game-theory adjustment.
    pub priority: u8,
    /// Deadline in ticks from the start of each period; 0 means no deadline.
    pub deadline_ticks: u32,
    /// Worst-case execution time in ticks, for overrun detection; 0 means
    /// unconstrained.
    pub wcet_ticks: u32,
    /// CPU affinity bitmask: bit `i` set means the task may run on core `i`.
    pub affinity_mask: u32,
    /// Time slice in ticks; 0 selects the system default.
    pub time_slice: u32,
}

impl TaskConfig {
    /// The time slice this configuration grants: the configured slice,
    /// or the system default when the slice is left at 0.
    pub open spec fn spec_effective_time_slice(self) -> u32 {
        if self.time_slice > 0 {
            self.time_slice
        } else {
            DEFAULT_TIME_SLICE
        }
    }

    /// Returns the effective time slice, falling back to the system default.
    pub fn effective_time_slice(&self) -> (r: u32)
        ensures
            r == self.spec_effective_time_slice(),
            r > 0,
    {
        if self.time_slice > 0 {
            self.time_slice
        } else {
            DEFAULT_TIME_SLICE
        }
    }
}

/// Runtime metrics tracked by the game engine to compute a task's payoff.
///
/// All values are integers. The `cooperation_score` is fixed-point (x100):
/// it starts at 100 (neutral 1.00) and is clamped to [0, 500].
#[derive(Debug, Clone, Copy)]
pub struct PayoffMetrics {
    /// Total CPU ticks consumed since the last reset.
    pub cpu_ticks_used: u32,
    /// Number of deadlines met.
    pub deadlines_met: u32,
    /// Number of deadlines missed.
    pub deadlines_missed: u32,
    /// Number of voluntary yields.
    pub voluntary_yields: u32,
    /// Number of time-slice overruns.
    pub overruns: u32,
    /// Current consecutive overrun count; reset on a met deadline.
    pub consecutive_overruns: u32,
    /// Cooperation score, fixed-point x100, clamped to [0, 500].
    pub cooperation_score: i32,
    /// Composite payoff computed by the game engine.
    pub payoff: i32,
    /// Payoff at the previous evaluation, for trend detection.
    pub previous_payoff: i32,
    /// Consecutive evaluation windows with declining payoff.
    pub decline_streak: u32,
    /// Ticks since the task last received CPU time.
    pub ticks_since_last_run: u32,
}

/// The cooperation score stays within its clamp range.
pub open spec fn score_in_range(p: PayoffMetrics) -> bool {
    0 <= p.cooperation_score <= 500
}

/// Every behavior counter is strictly below `COUNTER_LIMIT`, so one more
/// recorded event cannot push any payoff computation out of `i32`.
pub open spec fn counters_bounded(p: PayoffMetrics) -> bool {
    &&& p.cpu_ticks_used < COUNTER_LIMIT
    &&& p.deadlines_met < COUNTER_LIMIT
    &&& p.deadlines_missed < COUNTER_LIMIT
    &&& p.voluntary_yields < COUNTER_LIMIT
    &&& p.overruns < COUNTER_LIMIT
    &&& p.consecutive_overruns < COUNTER_LIMIT
    &&& p.decline_streak < COUNTER_LIMIT
    &&& p.ticks_since_last_run < COUNTER_LIMIT
}

/// Freshly initialized metrics: zero counters, neutral cooperation score.
pub open spec fn spec_new_metrics() -> PayoffMetrics {
    PayoffMetrics {
        cpu_ticks_used: 0,
        deadlines_met: 0,
        deadlines_missed: 0,
        voluntary_yields: 0,
        overruns: 0,
        consecutive_overruns: 0,
        cooperation_score: 100,
        payoff: 0,
        previous_payoff: 0,
        decline_streak: 0,
        ticks_since_last_run: 0,
    }
}

/// A cooperation-score raise of 10, clamped at 500.
pub open spec fn score_raised(c: int) -> int {
    if c + 10 <= 500 {
        c + 10
    } else {
        500
    }
}

/// A cooperation-score cut of 20, clamped at 0.
pub open spec fn score_cut(c: int) -> int {
    if c - 20 >= 0 {
        c - 20
    } else {
        0
    }
}

impl PayoffMetrics {
    /// Create zeroed payoff metrics with a neutral cooperation score.
    pub fn new() -> (r: Self)
        ensures
            r == spec_new_metrics(),
    {
        Self {
            cpu_ticks_used: 0,
            deadlines_met: 0,
            deadlines_missed: 0,
            voluntary_yields: 0,
            overruns: 0,
            consecutive_overruns: 0,
            cooperation_score: 100,
            payoff: 0,
            previous_payoff: 0,
            decline_streak: 0,
            ticks_since_last_run: 0,
        }
    }

    /// Reset all metrics to their initial values.
    pub fn reset(&mut self)
        ensures
            *final(self) == spec_new_metrics(),
    {
        *self = Self::new();
    }
}

/// Task Control Block: all state the scheduler keeps for one task.
///
/// The saved stack pointer is modeled as a word index into the task's own
/// stack region, so staying inside the region is part of the type's
/// well-formedness rather than a property of raw addresses. The port layer
/// translates between this index and the hardware stack pointer.
#[derive(Clone, Copy)]
pub struct TaskControlBlock {
    /// Slot index in the scheduler's task array.
    pub id: usize,
    /// Current execution state.
    pub state: TaskState,
    /// Static configuration.
    pub config: TaskConfig,
    /// Current game strategy.
    pub strategy: Strategy,
    /// Runtime payoff metrics.
    pub payoff: PayoffMetrics,
    /// Saved stack pointer, as a word index into `stack`.
    pub stack_pointer: usize,
    /// Per-task stack memory, in 32-bit words.
    pub stack: [u32; STACK_WORDS],
    /// Remaining ticks in the current time slice.
    pub ticks_remaining: u32,
    /// Total ticks the task has spent in the Running state.
    pub total_ticks: u32,
    /// Ticks since the start of the current period, for deadline checks.
    pub period_ticks: u32,
    /// Whether this slot is allocated.
    pub active: bool,
}

/// The task after a voluntary yield is recorded: one more yield,
/// cooperation score raised by 10, clamped at 500.
pub open spec fn spec_after_yield(t: TaskControlBlock) -> TaskControlBlock {
    TaskControlBlock {
        payoff: PayoffMetrics {
            voluntary_yields: (t.payoff.voluntary_yields + 1) as u32,
            cooperation_score: score_raised(t.payoff.cooperation_score as int) as i32,
            ..t.payoff
        },
        ..t
    }
}

/// The task after a met deadline is recorded: one more met deadline,
/// consecutive overruns reset.
pub open spec fn spec_after_deadline_met(t: TaskControlBlock) -> TaskControlBlock {
    TaskControlBlock {
        payoff: PayoffMetrics {
            deadlines_met: (t.payoff.deadlines_met + 1) as u32,
            consecutive_overruns: 0,
            ..t.payoff
        },
        ..t
    }
}

/// The task after a missed deadline is recorded.
pub open spec fn spec_after_deadline_missed(t: TaskControlBlock) -> TaskControlBlock {
    TaskControlBlock {
        payoff: PayoffMetrics {
            deadlines_missed: (t.payoff.deadlines_missed + 1) as u32,
            ..t.payoff
        },
        ..t
    }
}

/// The task after a time-slice overrun is recorded: both overrun counters
/// rise, cooperation score cut by 20, clamped at 0.
pub open spec fn spec_after_overrun(t: TaskControlBlock) -> TaskControlBlock {
    TaskControlBlock {
        payoff: PayoffMetrics {
            overruns: (t.payoff.overruns + 1) as u32,
            consecutive_overruns: (t.payoff.consecutive_overruns + 1) as u32,
            cooperation_score: score_cut(t.payoff.cooperation_score as int) as i32,
            ..t.payoff
        },
        ..t
    }
}

/// A task is runnable when its slot is allocated and it is Ready.
pub open spec fn spec_is_runnable(t: TaskControlBlock) -> bool {
    t.active && t.state == TaskState::Ready
}

/// Whether the affinity mask allows the task on the given core.
pub open spec fn spec_can_run_on_core(t: TaskControlBlock, core_id: u32) -> bool {
    t.config.affinity_mask & (1u32 << core_id) != 0
}

/// Integer division by 100 that truncates toward zero, matching the
/// executable `/` on signed integers.
pub open spec fn div100_trunc(a: int) -> int {
    if a >= 0 {
        a / 100
    } else {
        -((-a) / 100)
    }
}

/// Base priority plus the payoff scaled down from fixed-point, floored at 0.
pub open spec fn spec_effective_priority(t: TaskControlBlock) -> int {
    let adjusted = t.config.priority + div100_trunc(t.payoff.payoff as int);
    if adjusted >= 0 {
        adjusted
    } else {
        0
    }
}

impl TaskControlBlock {
    /// Create an empty (unallocated) control block, used to fill the
    /// scheduler's static array.
    pub fn empty() -> (r: Self)
        ensures
            r.id == 0,
            r.state == TaskState::Suspended,
            r.config.priority == 0,
            r.config.deadline_ticks == 0,
            r.config.wcet_ticks == 0,
            r.config.affinity_mask == 1,
            r.config.time_slice == 0,
            r.strategy == Strategy::Cooperative,
            r.payoff == spec_new_metrics(),
            r.stack_pointer == 0,
            forall|w: int| 0 <= w < STACK_WORDS ==> r.stack@[w] == 0,
            r.ticks_remaining == 0,
            r.total_ticks == 0,
            r.period_ticks == 0,
            !r.active,
    {
        Self {
            id: 0,
            state: TaskState::Suspended,
            config: TaskConfig {
                priority: 0,
                deadline_ticks: 0,
                wcet_ticks: 0,
                affinity_mask: 0x01,
                time_slice: 0,
            },
            strategy: Strategy::Cooperative,
            payoff: PayoffMetrics::new(),
            stack_pointer: 0,
            stack: [0u32; STACK_WORDS],
            ticks_remaining: 0,
            total_ticks: 0,
            period_ticks: 0,
            active: false,
        }
    }

    /// Initialize this block for a new task: Ready state, fresh metrics,
    /// a full time slice. The stack frame is prepared separately.
    pub fn init(&mut self, id: usize, config: TaskConfig, strategy: Strategy)
        ensures
            *final(self) == (TaskControlBlock {
                id,
                state: TaskState::Ready,
                config,
                strategy,
                payoff: spec_new_metrics(),
                ticks_remaining: config.spec_effective_time_slice(),
                total_ticks: 0,
                period_ticks: 0,
                active: true,
                ..*old(self)
            }),
    {
        self.id = id;
        self.state = TaskState::Ready;
        self.config = config;
        self.strategy = strategy;
        self.payoff = PayoffMetrics::new();
        self.ticks_remaining = config.effective_time_slice();
        self.total_ticks = 0;
        self.period_ticks = 0;
        self.active = true;
    }

    /// Record a voluntary yield by the task: one more yield,
    /// cooperation score raised (capped at 500).
    pub fn record_yield(&mut self)
        requires
            old(self).payoff.voluntary_yields < u32::MAX,
            score_in_range(old(self).payoff),
        ensures
            *final(self) == spec_after_yield(*old(self)),
            score_in_range(final(self).payoff),
    {
        self.payoff.voluntary_yields = self.payoff.voluntary_yields + 1;
        let raised = self.payoff.cooperation_score + 10;
        self.payoff.cooperation_score = if raised <= 500 {
            raised
        } else {
            500
        };
    }

    /// Record a met deadline for the current period.
    pub fn record_deadline_met(&mut self)
        requires
            old(self).payoff.deadlines_met < u32::MAX,
        ensures
            *final(self) == spec_after_deadline_met(*old(self)),
    {
        self.payoff.deadlines_met = self.payoff.deadlines_met + 1;
        self.payoff.consecutive_overruns = 0;
    }

    /// Record a missed deadline.
    pub fn record_deadline_missed(&mut self)
        requires
            old(self).payoff.deadlines_missed < u32::MAX,
        ensures
            *final(self) == spec_after_deadline_missed(*old(self)),
    {
        self.payoff.deadlines_missed = self.payoff.deadlines_missed + 1;
    }

    /// Record a time-slice overrun: both overrun counters rise, cooperation
    /// score cut (floored at 0).
    pub fn record_overrun(&mut self)
        requires
            old(self).payoff.overruns < u32::MAX,
            old(self).payoff.consecutive_overruns < u32::MAX,
            score_in_range(old(self).payoff),
        ensures
            *final(self) == spec_after_overrun(*old(self)),
            score_in_range(final(self).payoff),
    {
        self.payoff.overruns = self.payoff.overruns + 1;
        self.payoff.consecutive_overruns = self.payoff.consecutive_overruns + 1;
        let cut = self.payoff.cooperation_score - 20;
        self.payoff.cooperation_score = if cut >= 0 {
            cut
        } else {
            0
        };
    }

    /// Check whether the task is runnable (allocated and Ready).
    pub fn is_runnable(&self) -> (r: bool)
        ensures
            r == spec_is_runnable(*self),
    {
        self.active && self.state == TaskState::Ready
    }

    /// Check whether the affinity mask allows the task on the given core.
    pub fn can_run_on_core(&self, core_id: u32) -> (r: bool)
        requires
            core_id < 32,
        ensures
            r == spec_can_run_on_core(*self, core_id),
    {
        (self.config.affinity_mask & (1u32 << core_id)) != 0
    }

    /// The effective priority after the game-theory payoff adjustment:
    /// base priority plus `payoff / 100`, never below 0.
    pub fn effective_priority(&self) -> (r: i32)
        ensures
            r == spec_effective_priority(*self),
            r >= 0,
    {
        let base = self.config.priority as i32;
        let payoff_adjustment = self.payoff.payoff / 100;
        let adjusted = base + payoff_adjustment;
        if adjusted >= 0 {
            adjusted
        } else {
            0
        }
    }
}

/// Recording a yield and then an overrun moves the cooperation score by a
/// net -10, clamped to the [0, 500] range at each step: exactly -10 for
/// starting scores in [10, 490], 0 as the result below that band, and 480
/// above it.
pub proof fn lemma_yield_then_overrun_nets_minus_ten(t: TaskControlBlock)
    requires
        score_in_range(t.payoff),
        t.payoff.voluntary_yields < u32::MAX,
        t.payoff.overruns < u32::MAX,
        t.payoff.consecutive_overruns < u32::MAX,
    ensures
        spec_after_overrun(spec_after_yield(t)).payoff.cooperation_score == if t.payoff.cooperation_score
            < 10 {
            0
        } else if t.payoff.cooperation_score <= 490 {
            t.payoff.cooperation_score - 10
        } else {
            480
        },
{
}

/// The effective priority never goes below zero, whatever the payoff.
pub proof fn lemma_effective_priority_nonnegative(t: TaskControlBlock)
    ensures
        spec_effective_priority(t) >= 0,
{
}

} // verus!
