//! Core logic for bringing an STM32F4-class microcontroller from its reset
//! clock to a stable, PLL-derived operating frequency, and for running a
//! periodic timer-synchronized beacon task on top of interrupt-driven
//! scheduling primitives.
//!
//! Hardware access (memory-mapped registers, interrupt dispatch, the
//! cooperative executor) lives outside this crate; the types here model the
//! decisions: which values to write, how to react to readiness signals and
//! read-backs, and how ticks are accumulated and consumed.

pub mod beacon;
pub mod clock;
pub mod controller;
pub mod led;
pub mod signal;
pub mod stream;
