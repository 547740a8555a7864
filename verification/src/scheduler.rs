//! The core scheduler: tick bookkeeping, deadline and overrun detection,
//! periodic game evaluation, starvation boosting, task selection, voluntary
//! yield, and task registration with stack preparation.
//!
//! All tasks live inline in a fixed-size array; only indices below
//! `task_count` are allocated, and slot 0 doubles as the idle fallback.
//! The port layer drives this state machine: the timer interrupt calls
//! `tick`, the deferred context-switch handler calls `schedule`, and the
//! kernel facade calls `create_task` and `yield_current` under its
//! critical section.

use vstd::prelude::*;

use crate::config::{
    COUNTER_LIMIT, EVAL_FREQUENCY, MAX_CORES, MAX_TASKS, STACK_WORDS, STARVATION_THRESHOLD,
};
use crate::game::{
    compute_payoff, equilibrium_spec, is_in_equilibrium, payoff_inputs_ok, payoff_spec,
    strategy_update_spec, update_strategies, SystemMetrics,
};
use crate::task::{
    counters_bounded, score_in_range, spec_after_deadline_missed, spec_after_overrun,
    spec_after_yield, spec_can_run_on_core, spec_effective_priority, spec_is_runnable,
    spec_new_metrics, PayoffMetrics, Strategy, TaskConfig, TaskControlBlock, TaskState,
};

verus! {

/// Initial program-status word for a fresh task frame: the Thumb bit set,
/// everything else clear.
pub const INITIAL_XPSR: u32 = 0x0100_0000;

/// Number of words in a fresh context frame: 8 software-saved registers
/// below the 8-word hardware exception frame.
pub const FRAME_WORDS: usize = 16;

/// Per-task well-formedness: the cooperation score inside its clamp range,
/// the remaining slice never beyond the effective slice, and the saved
/// stack pointer inside the task's own stack region.
pub open spec fn tcb_inv(t: TaskControlBlock) -> bool {
    &&& score_in_range(t.payoff)
    &&& t.ticks_remaining <= t.config.spec_effective_time_slice()
    &&& t.stack_pointer <= STACK_WORDS
}

/// The central scheduler state: the task table, the running-task index,
/// tick and reschedule bookkeeping, and the aggregate system metrics.
pub struct Scheduler {
    /// Fixed-size task table; slot 0 is the idle fallback.
    pub tasks: [TaskControlBlock; MAX_TASKS],
    /// Index of the currently running task.
    pub current_task: usize,
    /// Number of allocated tasks.
    pub task_count: usize,
    /// Aggregate system metrics for the game engine.
    pub metrics: SystemMetrics,
    /// Monotonic tick counter.
    pub tick_count: u64,
    /// Set when a context switch should occur.
    pub needs_reschedule: bool,
}

impl Scheduler {
    /// The scheduler's structural invariant: a bounded live prefix of
    /// allocated slots carrying their own indices, per-task well-formedness,
    /// and at most one Running task, which is the current one.
    pub open spec fn wf(self) -> bool {
        &&& self.task_count <= MAX_TASKS
        &&& self.current_task < MAX_TASKS
        &&& forall|i: int|
            0 <= i < MAX_TASKS ==> ((#[trigger] self.tasks@[i]).active <==> i < self.task_count)
        &&& forall|i: int| 0 <= i < self.task_count ==> (#[trigger] self.tasks@[i]).id == i
        &&& forall|i: int| 0 <= i < MAX_TASKS ==> tcb_inv(#[trigger] self.tasks@[i])
        &&& forall|i: int|
            0 <= i < MAX_TASKS && (#[trigger] self.tasks@[i]).state == TaskState::Running ==> i
                == self.current_task && self.tasks@[i].active
    }

    /// Create a new scheduler: an empty task table, no ticks, nothing to
    /// reschedule.
    pub fn new() -> (r: Scheduler)
        ensures
            r.wf(),
            r.task_count == 0,
            r.current_task == 0,
            r.tick_count == 0,
            !r.needs_reschedule,
            r.metrics.total_ticks == 0,
            r.metrics.active_tasks == 0,
            r.metrics.global_cooperation_ratio == 100,
            !r.metrics.overload,
            forall|i: int| 0 <= i < MAX_TASKS ==> !(#[trigger] r.tasks@[i]).active,
    {
        let empty = TaskControlBlock::empty();
        Scheduler {
            tasks: [empty; MAX_TASKS],
            current_task: 0,
            task_count: 0,
            metrics: SystemMetrics::new(),
            tick_count: 0,
            needs_reschedule: false,
        }
    }

    /// Register a new task: the next free slot is initialized to Ready with
    /// the given configuration and strategy, and its stack receives a fresh
    /// context frame. Fails exactly when the table is full, leaving the
    /// state unchanged.
    pub fn create_task(
        &mut self,
        entry: u32,
        return_sink: u32,
        config: TaskConfig,
        strategy: Strategy,
    ) -> (r: Result<usize, ()>)
        requires
            old(self).wf(),
        ensures
            final(self).wf(),
            old(self).task_count >= MAX_TASKS ==> r == Err::<usize, ()>(()) && *final(self)
                == *old(self),
            old(self).task_count < MAX_TASKS ==> ({
                let id = old(self).task_count as int;
                &&& r == Ok::<usize, ()>(old(self).task_count)
                &&& final(self).task_count == old(self).task_count + 1
                &&& final(self).current_task == old(self).current_task
                &&& final(self).tick_count == old(self).tick_count
                &&& final(self).metrics == old(self).metrics
                &&& final(self).needs_reschedule == old(self).needs_reschedule
                &&& forall|i: int|
                    0 <= i < MAX_TASKS && i != id ==> (#[trigger] final(self).tasks@[i]) == old(
                        self,
                    ).tasks@[i]
                &&& ({
                    let t = final(self).tasks@[id];
                    &&& t.id == id
                    &&& t.state == TaskState::Ready
                    &&& t.config == config
                    &&& t.strategy == strategy
                    &&& t.payoff == spec_new_metrics()
                    &&& t.ticks_remaining == config.spec_effective_time_slice()
                    &&& t.total_ticks == 0
                    &&& t.period_ticks == 0
                    &&& t.active
                    &&& frame_prepared(t, entry, return_sink)
                    &&& forall|w: int|
                        0 <= w < STACK_WORDS - FRAME_WORDS ==> (#[trigger] t.stack@[w]) == old(
                            self,
                        ).tasks@[id].stack@[w]
                })
            }),
    {
        if self.task_count >= MAX_TASKS {
            return Err(());
        }
        let id = self.task_count;
        let mut tcb = self.tasks[id];
        tcb.init(id, config, strategy);
        init_task_stack(&mut tcb, entry, return_sink);
        self.tasks[id] = tcb;
        self.task_count = id + 1;
        Ok(id)
    }

    /// Advance the scheduler by one timer tick.
    ///
    /// Charges the tick to the current task (expiring its slice when it
    /// runs out, with overrun detection), ages the starvation counters of
    /// the waiting tasks, sweeps deadlines, and every `EVAL_FREQUENCY`
    /// ticks runs the game evaluation. Sets `needs_reschedule` when a
    /// context switch should occur.
    pub fn tick(&mut self)
        requires
            old(self).wf(),
            old(self).tick_count < u32::MAX,
            forall|i: int|
                0 <= i < old(self).task_count ==> tcb_tick_ok(#[trigger] old(self).tasks@[i]),
        ensures
            final(self).wf(),
            final(self).tick_count == old(self).tick_count + 1,
            final(self).task_count == old(self).task_count,
            final(self).current_task == old(self).current_task,
            forall|i: int|
                0 <= i < MAX_TASKS ==> (#[trigger] final(self).tasks@[i]) == spec_task_after_tick(
                    *old(self),
                    i,
                ),
            final(self).needs_reschedule == spec_needs_reschedule_after_tick(*old(self)),
            final(self).metrics == if spec_tick_evaluates(*old(self)) {
                spec_eval_metrics(*old(self))
            } else {
                old(self).metrics
            },
    {
        let ghost s0 = *self;
        self.tick_count = self.tick_count + 1;

        // Charge the tick to the current task.
        let current = self.current_task;
        if current < self.task_count && self.tasks[current].active {
            let mut t = self.tasks[current];
            t.payoff.cpu_ticks_used = t.payoff.cpu_ticks_used + 1;
            t.total_ticks = t.total_ticks + 1;
            t.period_ticks = t.period_ticks + 1;

            if t.ticks_remaining > 0 {
                t.ticks_remaining = t.ticks_remaining - 1;
            }

            // Time slice expired: demote to Ready and refill the slice.
            if t.ticks_remaining == 0 {
                t.state = TaskState::Ready;
                t.ticks_remaining = t.config.effective_time_slice();

                if t.config.wcet_ticks > 0 && t.period_ticks > t.config.wcet_ticks {
                    t.record_overrun();
                }

                self.needs_reschedule = true;
            }
            self.tasks[current] = t;
            proof {
                assert(self.tasks@[current as int] == spec_tick_current(
                    s0.tasks@[current as int],
                ));
            }
        }

        proof {
            assert forall|j: int| 0 <= j < MAX_TASKS implies (#[trigger] self.tasks@[j])
                == spec_charge_stage(s0, j) by {
            }
        }

        // Age the starvation counters of waiting tasks.
        let mut i: usize = 0;
        while i < self.task_count
            invariant
                s0.wf(),
                i <= self.task_count,
                self.task_count == s0.task_count,
                self.current_task == s0.current_task,
                current == s0.current_task,
                self.tick_count == s0.tick_count + 1,
                s0.tick_count < u32::MAX,
                self.metrics == s0.metrics,
                forall|j: int|
                    0 <= j < s0.task_count ==> tcb_tick_ok(#[trigger] s0.tasks@[j]),
                self.needs_reschedule == (s0.needs_reschedule || (spec_has_current(s0)
                    && spec_slice_expires(s0.tasks@[s0.current_task as int]))),
                forall|j: int| 0 <= j < i ==> (#[trigger] self.tasks@[j]) == spec_wait_stage(s0, j),
                forall|j: int|
                    i <= j < MAX_TASKS ==> (#[trigger] self.tasks@[j]) == spec_charge_stage(s0, j),
            decreases self.task_count - i,
        {
            if i != current && self.tasks[i].active && self.tasks[i].state == TaskState::Ready {
                self.tasks[i].payoff.ticks_since_last_run = self.tasks[i].payoff.ticks_since_last_run
                    + 1;
            }
            i += 1;
        }

        // Deadline sweep over allocated tasks.
        let mut i: usize = 0;
        while i < self.task_count
            invariant
                s0.wf(),
                i <= self.task_count,
                self.task_count == s0.task_count,
                self.current_task == s0.current_task,
                self.tick_count == s0.tick_count + 1,
                s0.tick_count < u32::MAX,
                self.metrics == s0.metrics,
                forall|j: int|
                    0 <= j < s0.task_count ==> tcb_tick_ok(#[trigger] s0.tasks@[j]),
                self.needs_reschedule == (s0.needs_reschedule || (spec_has_current(s0)
                    && spec_slice_expires(s0.tasks@[s0.current_task as int]))),
                forall|j: int|
                    0 <= j < i ==> (#[trigger] self.tasks@[j]) == spec_task_pre_eval(s0, j),
                forall|j: int|
                    i <= j < MAX_TASKS ==> (#[trigger] self.tasks@[j]) == spec_wait_stage(s0, j),
            decreases self.task_count - i,
        {
            if self.tasks[i].active {
                let deadline = self.tasks[i].config.deadline_ticks;
                if deadline > 0 && self.tasks[i].period_ticks >= deadline {
                    if self.tasks[i].state == TaskState::Ready || self.tasks[i].state
                        == TaskState::Running {
                        // Still waiting or running at the deadline: missed.
                        let mut t = self.tasks[i];
                        t.record_deadline_missed();
                        self.tasks[i] = t;
                    }
                    self.tasks[i].period_ticks = 0;
                }
            }
            i += 1;
        }

        proof {
            assert forall|j: int| 0 <= j < MAX_TASKS implies (#[trigger] self.tasks@[j])
                == spec_task_pre_eval(s0, j) by {
            }
            assert forall|j: int| 0 <= j < MAX_TASKS implies tcb_inv(#[trigger] self.tasks@[j])
                && (self.tasks@[j].active <==> j < self.task_count) && (j < self.task_count
                ==> self.tasks@[j].id == j) && (self.tasks@[j].state == TaskState::Running ==> j
                == self.current_task as int) && (j < self.task_count ==> eval_counters_ok(
                self.tasks@[j],
            )) by {
                lemma_pre_eval_task_facts(s0, j);
            }
            assert(self.wf());
        }

        // Periodic game evaluation.
        if self.tick_count % (EVAL_FREQUENCY as u64) == 0 {
            let ghost s1 = *self;
            self.evaluate_game();
            proof {
                assert(s1.tasks@ =~= pre_eval_tasks(s0));
                assert(spec_tick_evaluates(s0));
            }
        } else {
            proof {
                assert(!spec_tick_evaluates(s0));
                assert forall|j: int| 0 <= j < MAX_TASKS implies (#[trigger] self.tasks@[j])
                    == spec_task_after_tick(s0, j) by {
                }
            }
        }
    }

    /// Select the next task to run: the first runnable core-0 task with the
    /// strictly greatest effective priority plus starvation boost, or the
    /// idle fallback (slot 0) when nothing is runnable. The previous task is
    /// demoted to Ready if it was still Running; the chosen task becomes
    /// Running with its starvation counter cleared, and the reschedule
    /// request is consumed.
    pub fn schedule(&mut self) -> (r: usize)
        requires
            old(self).wf(),
        ensures
            final(self).wf(),
            r < MAX_TASKS,
            r as int == spec_schedule_choice(*old(self)),
            final(self).task_count == old(self).task_count,
            final(self).tick_count == old(self).tick_count,
            final(self).metrics == old(self).metrics,
            final(self).current_task == r,
            !final(self).needs_reschedule,
            forall|i: int|
                0 <= i < MAX_TASKS ==> (#[trigger] final(self).tasks@[i])
                    == spec_task_after_schedule(*old(self), i),
            old(self).task_count > 0 ==> final(self).tasks@[r as int].state == TaskState::Running
                && final(self).tasks@[r as int].payoff.ticks_since_last_run == 0,
            forall|i: int|
                0 <= i < MAX_TASKS && i != r ==> (#[trigger] final(self).tasks@[i]).state
                    != TaskState::Running,
            (forall|j: int|
                0 <= j < old(self).task_count ==> !spec_candidate(#[trigger] old(self).tasks@[j]))
                ==> r == 0,
    {
        let ghost s0 = *self;
        let mut best_task: usize = 0;
        let mut best_priority: i32 = i32::MIN;

        let mut i: usize = 0;
        while i < self.task_count
            invariant
                s0.wf(),
                *self == s0,
                i <= s0.task_count,
                best_task as int == spec_best_candidate(s0.tasks@, i as int).0,
                best_priority as int == spec_best_candidate(s0.tasks@, i as int).1,
                best_task < MAX_TASKS,
            decreases s0.task_count - i,
        {
            proof {
                lemma_selection_scores_bounded(s0.tasks@[i as int]);
            }
            if self.tasks[i].is_runnable() && self.tasks[i].can_run_on_core(0) {
                let eff_prio = self.tasks[i].effective_priority();

                // Starvation boost: extra weight for tasks waiting too long.
                let waited = self.tasks[i].payoff.ticks_since_last_run;
                let starvation_boost: i32 = if waited >= STARVATION_THRESHOLD {
                    (waited / STARVATION_THRESHOLD) as i32 * 2
                } else {
                    0
                };

                let total_prio = eff_prio + starvation_boost;
                if total_prio > best_priority {
                    best_priority = total_prio;
                    best_task = i;
                }
            }
            i += 1;
        }

        proof {
            lemma_best_candidate_facts(s0.tasks@, s0.task_count as int);
        }

        // Demote the previous task if it is still Running.
        let prev = self.current_task;
        if prev < self.task_count && self.tasks[prev].state == TaskState::Running {
            self.tasks[prev].state = TaskState::Ready;
        }

        // Promote the chosen task.
        if best_task < self.task_count {
            self.tasks[best_task].state = TaskState::Running;
            self.tasks[best_task].payoff.ticks_since_last_run = 0;
        }

        self.current_task = best_task;
        self.needs_reschedule = false;

        best_task
    }

    /// Record a voluntary yield from the current task: it is demoted to
    /// Ready, the yield enters its payoff metrics, its time slice refills,
    /// and a reschedule is requested. Without a current allocated task the
    /// call leaves the state unchanged.
    pub fn yield_current(&mut self)
        requires
            old(self).wf(),
            spec_has_current(*old(self)) ==> old(self).tasks@[old(
                self,
            ).current_task as int].payoff.voluntary_yields < u32::MAX,
        ensures
            final(self).wf(),
            !spec_has_current(*old(self)) ==> *final(self) == *old(self),
            spec_has_current(*old(self)) ==> ({
                let c = old(self).current_task as int;
                let t = old(self).tasks@[c];
                &&& final(self).tasks@[c] == (TaskControlBlock {
                    state: TaskState::Ready,
                    ticks_remaining: t.config.spec_effective_time_slice(),
                    ..spec_after_yield(t)
                })
                &&& forall|i: int|
                    0 <= i < MAX_TASKS && i != c ==> (#[trigger] final(self).tasks@[i])
                        == old(self).tasks@[i]
                &&& *final(self) == (Scheduler {
                    tasks: final(self).tasks,
                    needs_reschedule: true,
                    ..*old(self)
                })
            }),
    {
        let current = self.current_task;
        if current < self.task_count && self.tasks[current].active {
            let mut t = self.tasks[current];
            t.state = TaskState::Ready;
            t.record_yield();
            t.ticks_remaining = t.config.effective_time_slice();
            self.tasks[current] = t;
            self.needs_reschedule = true;
        }
    }

    /// Store the stack pointer handed back by the context-switch handler
    /// into the current task's control block, as a word index into its own
    /// stack region; the port checks the bound before calling. With no
    /// current allocated task nothing is recorded.
    pub fn save_context(&mut self, sp: usize)
        requires
            old(self).wf(),
            sp <= STACK_WORDS,
        ensures
            final(self).wf(),
            old(self).current_task >= old(self).task_count ==> *final(self) == *old(self),
            old(self).current_task < old(self).task_count ==> ({
                let c = old(self).current_task as int;
                &&& final(self).tasks@[c] == (TaskControlBlock {
                    stack_pointer: sp,
                    ..old(self).tasks@[c]
                })
                &&& forall|i: int|
                    0 <= i < MAX_TASKS && i != c ==> (#[trigger] final(self).tasks@[i])
                        == old(self).tasks@[i]
                &&& *final(self) == (Scheduler { tasks: final(self).tasks, ..*old(self) })
            }),
    {
        let current = self.current_task;
        if current < self.task_count {
            self.tasks[current].stack_pointer = sp;
        }
    }

    /// Get a reference to the current task's control block.
    pub fn current_tcb(&self) -> (r: &TaskControlBlock)
        requires
            self.wf(),
        ensures
            *r == self.tasks@[self.current_task as int],
    {
        &self.tasks[self.current_task]
    }

}

/// Number of active tasks in the prefix of length `n`.
pub open spec fn count_active(tasks: Seq<TaskControlBlock>, n: int) -> int
    decreases n,
{
    if n <= 0 {
        0
    } else {
        count_active(tasks, n - 1) + if tasks[n - 1].active {
            1int
        } else {
            0int
        }
    }
}

/// Number of active cooperative tasks in the prefix of length `n`.
pub open spec fn count_cooperative(tasks: Seq<TaskControlBlock>, n: int) -> int
    decreases n,
{
    if n <= 0 {
        0
    } else {
        count_cooperative(tasks, n - 1) + if tasks[n - 1].active && tasks[n - 1].strategy
            == Strategy::Cooperative {
            1int
        } else {
            0int
        }
    }
}

/// The global cooperation ratio: the cooperative share of active tasks as
/// a percentage, or 100 when no tasks are active.
pub open spec fn spec_cooperation_ratio(cooperative: int, active: int) -> int {
    if active > 0 {
        cooperative * 100 / active
    } else {
        100
    }
}

/// The aggregate metrics the game evaluation derives from the task table:
/// the tick count as total ticks, the active and cooperative counts, their
/// ratio, and the overload flag.
pub open spec fn spec_system_metrics(
    tasks: Seq<TaskControlBlock>,
    n: int,
    ticks: u64,
) -> SystemMetrics {
    let active = count_active(tasks, n);
    let cooperative = count_cooperative(tasks, n);
    SystemMetrics {
        total_ticks: ticks,
        active_tasks: active as u32,
        global_cooperation_ratio: spec_cooperation_ratio(cooperative, active) as u32,
        overload: active > MAX_CORES as int,
    }
}

/// The counts are nonnegative, the cooperative count never exceeds the
/// active count, and neither exceeds the prefix length.
pub proof fn lemma_counts_bounded(tasks: Seq<TaskControlBlock>, n: int)
    requires
        n >= 0,
    ensures
        0 <= count_cooperative(tasks, n) <= count_active(tasks, n) <= n,
    decreases n,
{
    if n > 0 {
        lemma_counts_bounded(tasks, n - 1);
    }
}

/// The cooperation ratio is a percentage: it always lies in [0, 100].
pub proof fn lemma_cooperation_ratio_in_range(tasks: Seq<TaskControlBlock>, n: int)
    requires
        n >= 0,
    ensures
        0 <= spec_cooperation_ratio(count_cooperative(tasks, n), count_active(tasks, n)) <= 100,
{
    lemma_counts_bounded(tasks, n);
    let active = count_active(tasks, n);
    let cooperative = count_cooperative(tasks, n);
    if active > 0 {
        assert(0 <= cooperative * 100 / active <= 100) by (nonlinear_arith)
            requires
                0 <= cooperative <= active,
                active > 0,
        ;
    }
}

/// A task's payoff field replaced by its freshly computed payoff; inactive
/// tasks are left alone.
pub open spec fn spec_payoff_stage(t: TaskControlBlock, m: SystemMetrics) -> TaskControlBlock {
    if t.active {
        TaskControlBlock {
            payoff: PayoffMetrics { payoff: payoff_spec(t, m) as i32, ..t.payoff },
            ..t
        }
    } else {
        t
    }
}

/// Whether the equilibrium check passes on the table after every active
/// task's payoff has been recomputed against the metrics `m`.
pub open spec fn spec_eval_equilibrium(
    tasks: Seq<TaskControlBlock>,
    n: int,
    m: SystemMetrics,
) -> bool {
    equilibrium_spec(Seq::new(tasks.len(), |i: int| spec_payoff_stage(tasks[i], m)), n, m)
}

/// The strategy-update pass applied to a task when the system was not in
/// equilibrium.
pub open spec fn spec_strategy_stage(t: TaskControlBlock, eq: bool) -> TaskControlBlock {
    if !eq && t.active {
        strategy_update_spec(t)
    } else {
        t
    }
}

/// A task is starving when it is active and has waited at least the
/// starvation threshold since it last ran.
pub open spec fn spec_starving(t: TaskControlBlock) -> bool {
    t.active && t.payoff.ticks_since_last_run >= STARVATION_THRESHOLD
}

/// A starving task's stored payoff boosted by 500.
pub open spec fn spec_starvation_stage(t: TaskControlBlock) -> TaskControlBlock {
    if spec_starving(t) {
        TaskControlBlock {
            payoff: PayoffMetrics { payoff: (t.payoff.payoff + 500) as i32, ..t.payoff },
            ..t
        }
    } else {
        t
    }
}

/// One game evaluation, seen from a single task: payoff recomputation,
/// then the strategy update when the system is out of equilibrium, then
/// the starvation boost.
pub open spec fn spec_task_after_eval(
    t: TaskControlBlock,
    m: SystemMetrics,
    eq: bool,
) -> TaskControlBlock {
    spec_starvation_stage(spec_strategy_stage(spec_payoff_stage(t, m), eq))
}

/// A full evaluation step changes only a task's payoff bookkeeping and
/// strategy, so the per-task well-formedness survives it.
pub proof fn lemma_eval_preserves_tcb_inv(t: TaskControlBlock, m: SystemMetrics, eq: bool)
    requires
        tcb_inv(t),
    ensures
        tcb_inv(spec_task_after_eval(t, m, eq)),
        spec_task_after_eval(t, m, eq).active == t.active,
        spec_task_after_eval(t, m, eq).id == t.id,
        spec_task_after_eval(t, m, eq).state == t.state,
{
}

/// A table whose entries are the payoff-staged entries of `orig` yields the
/// same equilibrium verdict as staging `orig` directly.
proof fn lemma_equilibrium_connection(
    orig: Seq<TaskControlBlock>,
    staged: Seq<TaskControlBlock>,
    n: int,
    m: SystemMetrics,
)
    requires
        orig.len() == MAX_TASKS,
        staged.len() == MAX_TASKS,
        0 <= n <= MAX_TASKS,
        forall|j: int|
            0 <= j < MAX_TASKS ==> (#[trigger] staged[j]) == spec_payoff_stage(orig[j], m),
    ensures
        equilibrium_spec(staged, n, m) == spec_eval_equilibrium(orig, n, m),
{
    let mapped = Seq::new(orig.len(), |j: int| spec_payoff_stage(orig[j], m));
    assert(staged =~= mapped);
}

/// Starvation is decided per index, so a pointwise-equivalent table starves
/// somewhere exactly when the original does.
proof fn lemma_starving_somewhere_preserved(
    orig: Seq<TaskControlBlock>,
    staged: Seq<TaskControlBlock>,
    n: int,
)
    requires
        forall|j: int|
            0 <= j < n ==> spec_starving(#[trigger] staged[j]) == spec_starving(orig[j]),
    ensures
        (exists|j: int| 0 <= j < n && spec_starving(#[trigger] staged[j])) == (exists|j: int|
            0 <= j < n && spec_starving(#[trigger] orig[j])),
{
    if exists|j: int| 0 <= j < n && spec_starving(#[trigger] staged[j]) {
        let j = choose|j: int| 0 <= j < n && spec_starving(#[trigger] staged[j]);
        assert(spec_starving(orig[j]));
    }
    if exists|j: int| 0 <= j < n && spec_starving(#[trigger] orig[j]) {
        let j = choose|j: int| 0 <= j < n && spec_starving(#[trigger] orig[j]);
        assert(spec_starving(staged[j]));
    }
}

/// Whether the tick charges a task at all: there is a current task and its
/// slot is allocated.
pub open spec fn spec_has_current(s: Scheduler) -> bool {
    s.current_task < s.task_count && s.tasks@[s.current_task as int].active
}

/// The current task after one tick is charged to it: CPU and period
/// counters rise, the remaining slice shrinks, and on expiry the task is
/// demoted to Ready with a refilled slice, recording an overrun when the
/// period has outrun a configured worst-case execution time.
pub open spec fn spec_tick_current(t: TaskControlBlock) -> TaskControlBlock {
    let bumped = TaskControlBlock {
        payoff: PayoffMetrics {
            cpu_ticks_used: (t.payoff.cpu_ticks_used + 1) as u32,
            ..t.payoff
        },
        total_ticks: (t.total_ticks + 1) as u32,
        period_ticks: (t.period_ticks + 1) as u32,
        ..t
    };
    let rem = if bumped.ticks_remaining > 0 {
        (bumped.ticks_remaining - 1) as u32
    } else {
        bumped.ticks_remaining
    };
    let counted = TaskControlBlock { ticks_remaining: rem, ..bumped };
    if rem == 0 {
        let refilled = TaskControlBlock {
            state: TaskState::Ready,
            ticks_remaining: counted.config.spec_effective_time_slice(),
            ..counted
        };
        if refilled.config.wcet_ticks > 0 && refilled.period_ticks > refilled.config.wcet_ticks {
            spec_after_overrun(refilled)
        } else {
            refilled
        }
    } else {
        counted
    }
}

/// Whether charging this tick exhausts the current task's slice.
pub open spec fn spec_slice_expires(t: TaskControlBlock) -> bool {
    t.ticks_remaining <= 1
}

/// A waiting task's starvation counter after one tick.
pub open spec fn spec_starve_tick(t: TaskControlBlock) -> TaskControlBlock {
    TaskControlBlock {
        payoff: PayoffMetrics {
            ticks_since_last_run: (t.payoff.ticks_since_last_run + 1) as u32,
            ..t.payoff
        },
        ..t
    }
}

/// The deadline sweep, seen from one task: when a deadline is configured
/// and the period has reached it, a task still Ready or Running has missed
/// it, and the period restarts either way.
pub open spec fn spec_deadline_step(t: TaskControlBlock) -> TaskControlBlock {
    if t.config.deadline_ticks > 0 && t.period_ticks >= t.config.deadline_ticks {
        let swept = if t.state == TaskState::Ready || t.state == TaskState::Running {
            spec_after_deadline_missed(t)
        } else {
            t
        };
        TaskControlBlock { period_ticks: 0, ..swept }
    } else {
        t
    }
}

/// Task `i` after the charge phase: only the current task changes.
pub open spec fn spec_charge_stage(s: Scheduler, i: int) -> TaskControlBlock {
    if spec_has_current(s) && i == s.current_task {
        spec_tick_current(s.tasks@[i])
    } else {
        s.tasks@[i]
    }
}

/// Task `i` after the charge and waiting phases: allocated Ready tasks
/// other than the current one age their starvation counters.
pub open spec fn spec_wait_stage(s: Scheduler, i: int) -> TaskControlBlock {
    let t = spec_charge_stage(s, i);
    if 0 <= i < s.task_count && i != s.current_task && t.active && t.state == TaskState::Ready {
        spec_starve_tick(t)
    } else {
        t
    }
}

/// Task `i` after all three bookkeeping phases of a tick: charging,
/// starvation aging, and the deadline sweep over allocated tasks.
pub open spec fn spec_task_pre_eval(s: Scheduler, i: int) -> TaskControlBlock {
    let t = spec_wait_stage(s, i);
    if 0 <= i < s.task_count && t.active {
        spec_deadline_step(t)
    } else {
        t
    }
}

/// The whole table after the bookkeeping phases of a tick.
pub open spec fn pre_eval_tasks(s: Scheduler) -> Seq<TaskControlBlock> {
    Seq::new(MAX_TASKS as nat, |i: int| spec_task_pre_eval(s, i))
}

/// Whether a tick that starts from the given tick count runs the periodic
/// game evaluation: the incremented count is a multiple of the evaluation
/// frequency.
pub open spec fn spec_count_evaluates(c: u64) -> bool {
    ((c + 1) as u64 % (EVAL_FREQUENCY as u64)) == 0
}

/// Whether this tick runs the periodic game evaluation.
pub open spec fn spec_tick_evaluates(s: Scheduler) -> bool {
    spec_count_evaluates(s.tick_count)
}

/// The metrics an evaluating tick derives: the incremented tick count and
/// the counts over the table after bookkeeping.
pub open spec fn spec_eval_metrics(s: Scheduler) -> SystemMetrics {
    spec_system_metrics(pre_eval_tasks(s), s.task_count as int, (s.tick_count + 1) as u64)
}

/// The equilibrium verdict an evaluating tick reaches.
pub open spec fn spec_tick_equilibrium(s: Scheduler) -> bool {
    spec_eval_equilibrium(pre_eval_tasks(s), s.task_count as int, spec_eval_metrics(s))
}

/// Task `i` at the end of a whole tick: the bookkeeping phases, then the
/// game evaluation when this tick runs one.
pub open spec fn spec_task_after_tick(s: Scheduler, i: int) -> TaskControlBlock {
    let t = spec_task_pre_eval(s, i);
    if spec_tick_evaluates(s) {
        spec_task_after_eval(t, spec_eval_metrics(s), spec_tick_equilibrium(s))
    } else {
        t
    }
}

/// The reschedule flag at the end of a tick: it was already set, the
/// current task's slice expired, or an evaluating tick found a starving
/// task.
pub open spec fn spec_needs_reschedule_after_tick(s: Scheduler) -> bool {
    let base = s.needs_reschedule || (spec_has_current(s) && spec_slice_expires(
        s.tasks@[s.current_task as int],
    ));
    if spec_tick_evaluates(s) {
        base || exists|i: int|
            0 <= i < s.task_count && spec_starving(#[trigger] pre_eval_tasks(s)[i])
    } else {
        base
    }
}

/// The per-task bounds one tick needs so that none of its counter
/// increments can wrap.
pub open spec fn tcb_tick_ok(t: TaskControlBlock) -> bool {
    &&& counters_bounded(t.payoff)
    &&& t.total_ticks < u32::MAX
    &&& t.period_ticks < u32::MAX
}

/// The bookkeeping phases preserve per-task well-formedness, leave
/// identity and allocation alone, never promote a task to Running, and
/// keep the counters inside the evaluation bounds.
pub proof fn lemma_pre_eval_task_facts(s: Scheduler, i: int)
    requires
        s.wf(),
        0 <= i < MAX_TASKS,
        0 <= i < s.task_count ==> tcb_tick_ok(s.tasks@[i]),
    ensures
        ({
            let t = spec_task_pre_eval(s, i);
            &&& tcb_inv(t)
            &&& t.active == s.tasks@[i].active
            &&& t.id == s.tasks@[i].id
            &&& (t.state == TaskState::Running ==> s.tasks@[i].state == TaskState::Running)
            &&& (0 <= i < s.task_count ==> eval_counters_ok(t))
        }),
{
    assert(tcb_inv(s.tasks@[i]));
}

/// A task competes for selection when it is runnable and may run on core 0.
pub open spec fn spec_candidate(t: TaskControlBlock) -> bool {
    spec_is_runnable(t) && spec_can_run_on_core(t, 0)
}

/// The selection-time starvation weight: twice the number of whole
/// starvation thresholds the task has waited, once it has waited at least
/// one.
pub open spec fn spec_starvation_boost(t: TaskControlBlock) -> int {
    if t.payoff.ticks_since_last_run >= STARVATION_THRESHOLD {
        (t.payoff.ticks_since_last_run / STARVATION_THRESHOLD) * 2
    } else {
        0
    }
}

/// The score a candidate competes with: effective priority plus the
/// starvation boost.
pub open spec fn spec_total_prio(t: TaskControlBlock) -> int {
    spec_effective_priority(t) + spec_starvation_boost(t)
}

/// The fold of the selection scan over the prefix of length `n`: the best
/// slot so far and its score, starting from the idle fallback (slot 0) at
/// the lowest possible score. A later candidate wins only with a strictly
/// greater score, so ties keep the earliest slot.
pub open spec fn spec_best_candidate(tasks: Seq<TaskControlBlock>, n: int) -> (int, int)
    decreases n,
{
    if n <= 0 {
        (0, i32::MIN as int)
    } else {
        let prev = spec_best_candidate(tasks, n - 1);
        if spec_candidate(tasks[n - 1]) && spec_total_prio(tasks[n - 1]) > prev.1 {
            (n - 1, spec_total_prio(tasks[n - 1]))
        } else {
            prev
        }
    }
}

/// The slot `schedule` picks.
pub open spec fn spec_schedule_choice(s: Scheduler) -> int {
    spec_best_candidate(s.tasks@, s.task_count as int).0
}

/// What the selection fold guarantees: the winner is inside the scanned
/// prefix (or the fallback 0), a sentinel score means no candidate exists
/// and the fallback is kept, a real score belongs to the winning candidate,
/// no candidate beats the winner, and every earlier candidate scores
/// strictly lower (first-seen wins ties).
pub proof fn lemma_best_candidate_facts(tasks: Seq<TaskControlBlock>, n: int)
    requires
        0 <= n,
    ensures
        ({
            let bp = spec_best_candidate(tasks, n);
            &&& 0 <= bp.0
            &&& bp.0 == 0 || bp.0 < n
            &&& bp.1 >= i32::MIN
            &&& (bp.1 == i32::MIN <==> (forall|j: int|
                0 <= j < n ==> !spec_candidate(#[trigger] tasks[j])))
            &&& (bp.1 == i32::MIN ==> bp.0 == 0)
            &&& (bp.1 != i32::MIN ==> spec_candidate(tasks[bp.0]) && bp.1 == spec_total_prio(
                tasks[bp.0],
            ))
            &&& (forall|j: int|
                0 <= j < n && spec_candidate(#[trigger] tasks[j]) ==> spec_total_prio(tasks[j])
                    <= bp.1)
            &&& (forall|j: int|
                0 <= j < bp.0 && spec_candidate(#[trigger] tasks[j]) ==> spec_total_prio(tasks[j])
                    < bp.1)
        }),
    decreases n,
{
    if n > 0 {
        lemma_best_candidate_facts(tasks, n - 1);
        if spec_candidate(tasks[n - 1]) {
            assert(spec_total_prio(tasks[n - 1]) >= 0);
        }
    }
}

/// A Running task demoted back to Ready; any other state is left alone.
pub open spec fn spec_demoted(t: TaskControlBlock) -> TaskControlBlock {
    if t.state == TaskState::Running {
        TaskControlBlock { state: TaskState::Ready, ..t }
    } else {
        t
    }
}

/// The selected task: Running, with its starvation counter cleared.
pub open spec fn spec_selected(t: TaskControlBlock) -> TaskControlBlock {
    TaskControlBlock {
        state: TaskState::Running,
        payoff: PayoffMetrics { ticks_since_last_run: 0, ..t.payoff },
        ..t
    }
}

/// Task `i` after one selection: the previous current task is demoted if
/// it was still Running, and the chosen allocated slot is promoted.
pub open spec fn spec_task_after_schedule(s: Scheduler, i: int) -> TaskControlBlock {
    let b = spec_schedule_choice(s);
    let t = s.tasks@[i];
    let demoted = if i == s.current_task && 0 <= i < s.task_count {
        spec_demoted(t)
    } else {
        t
    };
    if i == b && b < s.task_count {
        spec_selected(demoted)
    } else {
        demoted
    }
}

/// The effective priority stays within a narrow band of `i32`, so adding
/// the starvation boost cannot overflow.
pub proof fn lemma_selection_scores_bounded(t: TaskControlBlock)
    ensures
        0 <= spec_effective_priority(t) <= 21_475_092,
        0 <= spec_starvation_boost(t) <= 171_798_692,
        0 <= spec_total_prio(t) < i32::MAX,
{
    assert(crate::task::div100_trunc(t.payoff.payoff as int) <= 21_474_837) by (nonlinear_arith)
        requires
            -0x8000_0000 <= t.payoff.payoff <= 0x7fff_ffff,
    ;
    assert(t.payoff.ticks_since_last_run / STARVATION_THRESHOLD <= 85_899_346) by (nonlinear_arith)
        requires
            0 <= t.payoff.ticks_since_last_run <= 0xffff_ffffu32,
            STARVATION_THRESHOLD == 50,
    ;
}

/// The per-task bounds the game evaluation needs so that no payoff or
/// strategy arithmetic can leave `i32`.
pub open spec fn eval_counters_ok(t: TaskControlBlock) -> bool {
    &&& t.payoff.cpu_ticks_used <= COUNTER_LIMIT
    &&& t.payoff.deadlines_met <= COUNTER_LIMIT
    &&& t.payoff.deadlines_missed <= COUNTER_LIMIT
    &&& t.payoff.voluntary_yields <= COUNTER_LIMIT
    &&& t.payoff.consecutive_overruns <= COUNTER_LIMIT
    &&& t.payoff.decline_streak <= COUNTER_LIMIT
    &&& score_in_range(t.payoff)
}

impl Scheduler {
    /// Refresh the aggregate system metrics from the task table: the tick
    /// count becomes the total, active and cooperative tasks are recounted,
    /// and the overload flag is set when there are more active tasks than
    /// cores.
    fn update_system_metrics(&mut self)
        requires
            old(self).wf(),
        ensures
            final(self).wf(),
            *final(self) == (Scheduler { metrics: final(self).metrics, ..*old(self) }),
            final(self).metrics == spec_system_metrics(
                old(self).tasks@,
                old(self).task_count as int,
                old(self).tick_count,
            ),
    {
        self.metrics.total_ticks = self.tick_count;

        let mut active: u32 = 0;
        let mut cooperative: u32 = 0;
        let mut i: usize = 0;
        while i < self.task_count
            invariant
                i <= self.task_count,
                self.task_count == old(self).task_count <= MAX_TASKS,
                self.tasks@ == old(self).tasks@,
                self.tick_count == old(self).tick_count,
                self.current_task == old(self).current_task,
                self.needs_reschedule == old(self).needs_reschedule,
                self.metrics.total_ticks == old(self).tick_count,
                active == count_active(self.tasks@, i as int),
                cooperative == count_cooperative(self.tasks@, i as int),
            decreases self.task_count - i,
        {
            proof {
                lemma_counts_bounded(self.tasks@, i as int);
            }
            if self.tasks[i].active {
                active = active + 1;
                if self.tasks[i].strategy == Strategy::Cooperative {
                    cooperative = cooperative + 1;
                }
            }
            i += 1;
        }

        proof {
            lemma_counts_bounded(self.tasks@, self.task_count as int);
            lemma_cooperation_ratio_in_range(self.tasks@, self.task_count as int);
        }
        self.metrics.active_tasks = active;
        self.metrics.global_cooperation_ratio = if active > 0 {
            cooperative * 100 / active
        } else {
            100
        };
        self.metrics.overload = active > MAX_CORES as u32;
    }

    /// Recompute and store the payoff of every active task against the
    /// current metrics.
    fn recompute_payoffs(&mut self)
        requires
            old(self).wf(),
            old(self).metrics.total_ticks <= u32::MAX,
            forall|i: int|
                0 <= i < old(self).task_count ==> eval_counters_ok(#[trigger] old(self).tasks@[i]),
        ensures
            final(self).wf(),
            *final(self) == (Scheduler { tasks: final(self).tasks, ..*old(self) }),
            forall|i: int|
                0 <= i < MAX_TASKS ==> (#[trigger] final(self).tasks@[i]) == spec_payoff_stage(
                    old(self).tasks@[i],
                    old(self).metrics,
                ),
    {
        let ghost s0 = *self;
        let mut i: usize = 0;
        while i < self.task_count
            invariant
                i <= self.task_count,
                s0.wf(),
                self.task_count == s0.task_count,
                self.current_task == s0.current_task,
                self.tick_count == s0.tick_count,
                self.needs_reschedule == s0.needs_reschedule,
                self.metrics == s0.metrics,
                s0.metrics.total_ticks <= u32::MAX,
                forall|j: int|
                    0 <= j < s0.task_count ==> eval_counters_ok(#[trigger] s0.tasks@[j]),
                forall|j: int|
                    0 <= j < i ==> (#[trigger] self.tasks@[j]) == spec_payoff_stage(
                        s0.tasks@[j],
                        s0.metrics,
                    ),
                forall|j: int| i <= j < MAX_TASKS ==> (#[trigger] self.tasks@[j]) == s0.tasks@[j],
            decreases self.task_count - i,
        {
            if self.tasks[i].active {
                let p = compute_payoff(&self.tasks[i], &self.metrics);
                self.tasks[i].payoff.payoff = p;
            }
            i += 1;
        }
        proof {
            assert forall|j: int| 0 <= j < MAX_TASKS implies (#[trigger] self.tasks@[j])
                == spec_payoff_stage(s0.tasks@[j], s0.metrics) by {
                if j >= s0.task_count {
                    assert(!s0.tasks@[j].active);
                }
            }
        }
    }

    /// Boost the stored payoff of every starving task by 500 and request a
    /// reschedule when any task was starving.
    fn boost_starving(&mut self)
        requires
            old(self).wf(),
            forall|i: int|
                0 <= i < old(self).task_count ==> (#[trigger] old(self).tasks@[i]).payoff.payoff
                    <= i32::MAX - 500,
        ensures
            final(self).wf(),
            *final(self) == (Scheduler {
                tasks: final(self).tasks,
                needs_reschedule: final(self).needs_reschedule,
                ..*old(self)
            }),
            forall|i: int|
                0 <= i < MAX_TASKS ==> (#[trigger] final(self).tasks@[i]) == spec_starvation_stage(
                    old(self).tasks@[i],
                ),
            final(self).needs_reschedule == (old(self).needs_reschedule || exists|i: int|
                0 <= i < old(self).task_count && spec_starving(#[trigger] old(self).tasks@[i])),
    {
        let ghost s0 = *self;
        let mut i: usize = 0;
        while i < self.task_count
            invariant
                i <= self.task_count,
                s0.wf(),
                self.task_count == s0.task_count,
                self.current_task == s0.current_task,
                self.tick_count == s0.tick_count,
                self.metrics == s0.metrics,
                forall|j: int|
                    0 <= j < s0.task_count ==> (#[trigger] s0.tasks@[j]).payoff.payoff <= i32::MAX
                        - 500,
                forall|j: int|
                    0 <= j < i ==> (#[trigger] self.tasks@[j]) == spec_starvation_stage(
                        s0.tasks@[j],
                    ),
                forall|j: int| i <= j < MAX_TASKS ==> (#[trigger] self.tasks@[j]) == s0.tasks@[j],
                self.needs_reschedule == (s0.needs_reschedule || exists|j: int|
                    0 <= j < i && spec_starving(#[trigger] s0.tasks@[j])),
            decreases self.task_count - i,
        {
            if self.tasks[i].active && self.tasks[i].payoff.ticks_since_last_run
                >= STARVATION_THRESHOLD {
                self.tasks[i].payoff.payoff = self.tasks[i].payoff.payoff + 500;
                self.needs_reschedule = true;
            }
            i += 1;
        }
        proof {
            assert forall|j: int| 0 <= j < MAX_TASKS implies (#[trigger] self.tasks@[j])
                == spec_starvation_stage(s0.tasks@[j]) by {
                if j >= s0.task_count {
                    assert(!s0.tasks@[j].active);
                }
            }
        }
    }

    /// Run the game evaluation: refresh the system metrics, recompute every
    /// active task's payoff, update strategies when the system is out of
    /// equilibrium, and boost starving tasks, requesting a reschedule when
    /// any task was starving.
    #[verifier::rlimit(100)]
    fn evaluate_game(&mut self)
        requires
            old(self).wf(),
            old(self).tick_count <= u32::MAX,
            forall|i: int|
                0 <= i < old(self).task_count ==> eval_counters_ok(#[trigger] old(self).tasks@[i]),
        ensures
            final(self).wf(),
            final(self).task_count == old(self).task_count,
            final(self).current_task == old(self).current_task,
            final(self).tick_count == old(self).tick_count,
            ({
                let m = spec_system_metrics(
                    old(self).tasks@,
                    old(self).task_count as int,
                    old(self).tick_count,
                );
                let eq = spec_eval_equilibrium(old(self).tasks@, old(self).task_count as int, m);
                &&& final(self).metrics == m
                &&& forall|i: int|
                    0 <= i < MAX_TASKS ==> (#[trigger] final(self).tasks@[i])
                        == spec_task_after_eval(old(self).tasks@[i], m, eq)
                &&& final(self).needs_reschedule == (old(self).needs_reschedule || exists|i: int|
                    0 <= i < old(self).task_count && spec_starving(#[trigger] old(self).tasks@[i]))
            }),
    {
        let ghost s0 = *self;
        self.update_system_metrics();
        let ghost m = self.metrics;

        self.recompute_payoffs();

        let ghost staged = self.tasks@;
        proof {
            assert forall|j: int|
                0 <= j < s0.task_count && (#[trigger] staged[j]).active implies payoff_inputs_ok(
                staged[j],
                m,
            ) && staged[j].payoff.payoff <= i32::MAX - 50 by {
                crate::game::lemma_payoff_spec_bounded(s0.tasks@[j], m);
            }
        }

        // Check equilibrium and update strategies if the system is unstable.
        let eq = is_in_equilibrium(&self.tasks, self.task_count, &self.metrics);
        proof {
            lemma_equilibrium_connection(s0.tasks@, staged, s0.task_count as int, m);
        }
        if !eq {
            update_strategies(&mut self.tasks, self.task_count, &self.metrics);
        }

        let ghost after_strategies = self.tasks@;
        proof {
            assert forall|j: int| 0 <= j < MAX_TASKS implies (#[trigger] after_strategies[j])
                == spec_strategy_stage(spec_payoff_stage(s0.tasks@[j], m), eq) by {
                assert(staged[j] == spec_payoff_stage(s0.tasks@[j], m));
                if j < s0.task_count {
                    if !eq {
                        assert(after_strategies[j] == if staged[j].active {
                            strategy_update_spec(staged[j])
                        } else {
                            staged[j]
                        });
                    } else {
                        assert(after_strategies[j] == staged[j]);
                    }
                } else {
                    assert(!s0.tasks@[j].active);
                    assert(after_strategies[j] == staged[j]);
                }
            }
            assert forall|j: int|
                0 <= j < s0.task_count implies (#[trigger] after_strategies[j]).payoff.payoff
                <= i32::MAX - 500 by {
                crate::game::lemma_payoff_spec_bounded(s0.tasks@[j], m);
            }
        }

        // Starvation prevention: boost starving tasks.
        self.boost_starving();

        proof {
            assert forall|j: int| 0 <= j < MAX_TASKS implies (#[trigger] self.tasks@[j])
                == spec_task_after_eval(s0.tasks@[j], m, eq) by {
            }
            assert forall|j: int|
                0 <= j < s0.task_count implies spec_starving(#[trigger] after_strategies[j])
                == spec_starving(s0.tasks@[j]) by {
            }
            lemma_starving_somewhere_preserved(
                s0.tasks@,
                after_strategies,
                s0.task_count as int,
            );
            assert forall|j: int| 0 <= j < MAX_TASKS implies tcb_inv(
                #[trigger] final(self).tasks@[j],
            ) by {
                lemma_eval_preserves_tcb_inv(s0.tasks@[j], m, eq);
            }
        }
    }
}

/// A fresh context frame stands at the top of the task's stack: thirteen
/// zeroed registers, the return sink in the link-register slot, the entry
/// address in the program-counter slot, and the Thumb-bit status word on
/// top; the saved stack pointer points at the frame's base.
pub open spec fn frame_prepared(t: TaskControlBlock, entry: u32, return_sink: u32) -> bool {
    &&& t.stack_pointer == STACK_WORDS - FRAME_WORDS
    &&& forall|w: int|
        STACK_WORDS - FRAME_WORDS <= w < STACK_WORDS - 3 ==> (#[trigger] t.stack@[w]) == 0
    &&& t.stack@[STACK_WORDS - 3] == return_sink
    &&& t.stack@[STACK_WORDS - 2] == entry
    &&& t.stack@[STACK_WORDS - 1] == INITIAL_XPSR
}

/// Prepare a task's stack for its first context switch: a frame at the top
/// of the stack from which a restore enters the task's entry function, with
/// scratch registers zeroed and the link register pointing at the port's
/// return sink. The frame base is word-indexed, so the hardware 8-byte
/// alignment of the frame follows from the region's own alignment.
fn init_task_stack(tcb: &mut TaskControlBlock, entry: u32, return_sink: u32)
    ensures
        frame_prepared(*final(tcb), entry, return_sink),
        forall|w: int|
            0 <= w < STACK_WORDS - FRAME_WORDS ==> (#[trigger] final(tcb).stack@[w]) == old(
                tcb,
            ).stack@[w],
        *final(tcb) == (TaskControlBlock {
            stack_pointer: final(tcb).stack_pointer,
            stack: final(tcb).stack,
            ..*old(tcb)
        }),
{
    let base: usize = STACK_WORDS - FRAME_WORDS;
    let mut w: usize = base;
    while w < STACK_WORDS - 3
        invariant
            base <= w <= STACK_WORDS - 3,
            forall|k: int| base <= k < w ==> (#[trigger] tcb.stack@[k]) == 0,
            forall|k: int| 0 <= k < base ==> (#[trigger] tcb.stack@[k]) == old(tcb).stack@[k],
            *tcb == (TaskControlBlock { stack: tcb.stack, ..*old(tcb) }),
        decreases STACK_WORDS - 3 - w,
    {
        tcb.stack[w] = 0;
        w += 1;
    }
    tcb.stack[STACK_WORDS - 3] = return_sink;
    tcb.stack[STACK_WORDS - 2] = entry;
    tcb.stack[STACK_WORDS - 1] = INITIAL_XPSR;
    tcb.stack_pointer = base;
}

/// Exactly one of any `EVAL_FREQUENCY` consecutive ticks runs the game
/// evaluation: `tick` raises the tick count by one each call, so of the
/// calls that see tick counts `start`, `start + 1`, ..., one and only one
/// satisfies `spec_count_evaluates` and with it `spec_tick_evaluates`.
pub proof fn lemma_one_evaluation_per_window(start: u64)
    requires
        start + EVAL_FREQUENCY <= u64::MAX,
    ensures
        exists|k: int|
            0 <= k < EVAL_FREQUENCY && #[trigger] spec_count_evaluates((start + k) as u64),
        forall|k1: int, k2: int|
            0 <= k1 < EVAL_FREQUENCY && 0 <= k2 < EVAL_FREQUENCY && #[trigger] spec_count_evaluates(
                (start + k1) as u64,
            ) && #[trigger] spec_count_evaluates((start + k2) as u64) ==> k1 == k2,
{
    let f = EVAL_FREQUENCY as int;
    let s1 = start as int + 1;
    let q = s1 / f;
    let r = s1 % f;
    let k: int = if r == 0 {
        0
    } else {
        f - r
    };
    assert(0 <= k < f);
    if r == 0 {
        vstd::arithmetic::div_mod::lemma_mod_multiples_basic(q, f);
    } else {
        assert(s1 + k == f * (q + 1));
        vstd::arithmetic::div_mod::lemma_mod_multiples_basic(q + 1, f);
        assert(((q + 1) * f) % f == 0);
        assert(f * (q + 1) == (q + 1) * f) by (nonlinear_arith);
    }
    assert(spec_count_evaluates((start + k) as u64));

    assert forall|k1: int, k2: int|
        0 <= k1 < EVAL_FREQUENCY && 0 <= k2 < EVAL_FREQUENCY && #[trigger] spec_count_evaluates(
            (start + k1) as u64,
        ) && #[trigger] spec_count_evaluates((start + k2) as u64) implies k1 == k2 by {
        let c1 = start as int + k1 + 1;
        let c2 = start as int + k2 + 1;
        assert(c1 % f == 0);
        assert(c2 % f == 0);
        let a = c1 / f;
        let b = c2 / f;
        assert(c1 == f * a);
        assert(c2 == f * b);
        assert(k1 == k2) by (nonlinear_arith)
            requires
                k1 - k2 == f * (a - b),
                -10 < k1 - k2 < 10,
                f == 10,
        ;
    }
}

/// Selection is stable across consecutive calls exactly in the idle case:
/// a selection leaves its chosen task Running, and Running tasks are not
/// candidates, so a repeated choice is only guaranteed when nothing is
/// runnable and the fallback slot 0 wins both times. This lemma states that
/// case: with no candidate in the table and no task left Running, the
/// choice is slot 0, and the choice over the table a selection leaves
/// behind is slot 0 again.
pub proof fn lemma_schedule_stable_when_idle(s: Scheduler)
    requires
        s.wf(),
        forall|i: int| 0 <= i < s.task_count ==> !spec_candidate(#[trigger] s.tasks@[i]),
        s.tasks@[s.current_task as int].state != TaskState::Running,
    ensures
        spec_schedule_choice(s) == 0,
        spec_best_candidate(
            Seq::new(MAX_TASKS as nat, |i: int| spec_task_after_schedule(s, i)),
            s.task_count as int,
        ).0 == 0,
{
    lemma_best_candidate_facts(s.tasks@, s.task_count as int);
    let post = Seq::new(MAX_TASKS as nat, |i: int| spec_task_after_schedule(s, i));
    assert forall|i: int| 0 <= i < s.task_count implies !spec_candidate(#[trigger] post[i]) by {
        assert(spec_demoted(s.tasks@[i]) == s.tasks@[i] || i != s.current_task);
    }
    lemma_best_candidate_facts(post, s.task_count as int);
}

/// A tick preserves every per-task invariant: the cooperation score stays
/// within [0, 500], the remaining slice never exceeds the effective time
/// slice (on expiry it is refilled to exactly that), and the saved stack
/// pointer stays inside the task's own stack region.
pub proof fn lemma_tick_preserves_task_invariants(s: Scheduler, i: int)
    requires
        s.wf(),
        0 <= i < MAX_TASKS,
        0 <= i < s.task_count ==> tcb_tick_ok(s.tasks@[i]),
    ensures
        tcb_inv(spec_task_after_tick(s, i)),
{
    lemma_pre_eval_task_facts(s, i);
    if spec_tick_evaluates(s) {
        lemma_eval_preserves_tcb_inv(
            spec_task_pre_eval(s, i),
            spec_eval_metrics(s),
            spec_tick_equilibrium(s),
        );
    }
}

/// A task without a deadline (`deadline_ticks == 0`) passes the deadline
/// sweep untouched: no miss is recorded and the period is not reset,
/// whatever `period_ticks` holds.
pub proof fn lemma_zero_deadline_never_misses(t: TaskControlBlock)
    requires
        t.config.deadline_ticks == 0,
    ensures
        spec_deadline_step(t) == t,
{
}

/// A task without a worst-case execution time (`wcet_ticks == 0`) never
/// records an overrun when its slice expires: the tick charge leaves its
/// overrun counters and cooperation score untouched.
pub proof fn lemma_zero_wcet_never_overruns(t: TaskControlBlock)
    requires
        t.config.wcet_ticks == 0,
    ensures
        spec_tick_current(t).payoff.overruns == t.payoff.overruns,
        spec_tick_current(t).payoff.consecutive_overruns == t.payoff.consecutive_overruns,
        spec_tick_current(t).payoff.cooperation_score == t.payoff.cooperation_score,
{
}

/// The metrics an evaluation publishes satisfy the cooperation-ratio
/// contract: the ratio is exactly `100 * cooperative / active` over the
/// counted table, or 100 when no task is active, and it always lies in
/// [0, 100].
pub proof fn lemma_metrics_ratio(tasks: Seq<TaskControlBlock>, n: int, ticks: u64)
    requires
        0 <= n <= MAX_TASKS,
    ensures
        ({
            let m = spec_system_metrics(tasks, n, ticks);
            &&& m.active_tasks as int == count_active(tasks, n)
            &&& m.global_cooperation_ratio as int == spec_cooperation_ratio(
                count_cooperative(tasks, n),
                count_active(tasks, n),
            )
            &&& 0 <= m.global_cooperation_ratio <= 100
            &&& m.total_ticks == ticks
        }),
{
    lemma_counts_bounded(tasks, n);
    lemma_cooperation_ratio_in_range(tasks, n);
}

} // verus!
