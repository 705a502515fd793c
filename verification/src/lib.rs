//! Core of a hobby x86-64 kernel, centred on its task scheduler and the
//! inter-task communication primitives the scheduler depends on: a
//! multi-producer/single-consumer message queue and a triple buffer for
//! publishing latest-value snapshots.
//!
//! All shared scheduling state lives in an explicitly constructed
//! [`task::TaskManager`] that callers thread through the API; the surrounding
//! kernel wraps it in a single interrupt-safe lock and performs the raw
//! register-level context switch that the scheduler's decisions call for.

use vstd::prelude::*;

pub mod bitset;
pub mod events;
pub mod graphic_config;
pub mod graphics;
pub mod gui;
pub mod keyboard;
pub mod memory_manager;
pub mod mpsc;
pub mod msi;
pub mod pci;
pub mod ring_buffer;
pub mod task;
pub mod timer;
pub mod triple_buffer;

verus! {

/// Error surfaced by scheduling entry points when a request cannot be served.
#[derive(Clone, Copy, PartialEq, Eq, Debug)]
pub enum Error {
    Whatever(&'static str),
}

} // verus!
