//! A game-theoretic real-time scheduler core.
//!
//! Tasks are modeled as players in an iterated Prisoner's Dilemma: each task
//! carries a strategy (cooperative or selfish) and a payoff score computed
//! from its runtime behavior (deadline compliance, voluntary yields, overruns,
//! fair-share CPU usage). The scheduler blends the payoff with a static base
//! priority to pick the next runnable task, detects approximate Nash
//! equilibrium, switches strategies under hysteresis, and prevents starvation.
//!
//! The crate holds the hardware-independent core: the task model, the game
//! engine, and the tick-driven scheduler state machine, all on fixed-size
//! state with integer arithmetic only. The architecture port (timer and
//! context-switch plumbing) lives outside and drives this core through its
//! public methods.

pub mod config;
pub mod game;
pub mod scheduler;
pub mod task;
