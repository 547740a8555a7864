//! Compile-time constants governing the scheduler and system behavior.
//! All limits are fixed at compile time; there is no dynamic allocation.

use vstd::prelude::*;

verus! {

/// Maximum number of tasks the system can manage simultaneously.
/// Bounds the static task array; slot 0 doubles as the idle fallback.
pub const MAX_TASKS: usize = 8;

/// Tick-timer frequency in Hz. Determines scheduler tick granularity.
pub const TICK_HZ: u32 = 1000;

/// Default time slice in ticks, used by tasks whose configuration
/// leaves the slice at 0.
pub const DEFAULT_TIME_SLICE: u32 = 10;

/// Per-task stack size in bytes.
pub const STACK_SIZE: usize = 1024;

/// Per-task stack size in 32-bit words. The core models each task's stack
/// as an array of words, since the context frames are word-granular.
pub const STACK_WORDS: usize = STACK_SIZE / 4;

/// Number of processor cores served by task selection (single-core).
pub const MAX_CORES: usize = 1;

/// Number of ticks a task may receive zero CPU before the starvation
/// prevention mechanism triggers a priority boost.
pub const STARVATION_THRESHOLD: u32 = 50;

/// Number of consecutive evaluation windows with declining payoff
/// required before a task switches strategy.
pub const STRATEGY_HYSTERESIS: u32 = 3;

/// The full game evaluation runs once every `EVAL_FREQUENCY` ticks.
pub const EVAL_FREQUENCY: u32 = 10;

/// System clock frequency in Hz.
pub const SYSTEM_CLOCK_HZ: u32 = 16_000_000;

/// Upper bound on per-task behavior counters under which every step of the
/// payoff computation stays within `i32`. Counters are documented as
/// resettable and never reach this bound in normal operation; the scheduler
/// entry points require it so that no arithmetic can wrap.
pub const COUNTER_LIMIT: u32 = 1_000_000;

} // verus!
