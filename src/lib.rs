//! Supervision of a single remote compute instance: lifecycle states, the
//! decoding of status responses, the connectivity probe, the lifecycle watcher,
//! the race between them, and the top-level supervisor state machine.
//!
//! Every item here is a pure decision procedure over plain values; the code
//! that talks to the control plane, spawns processes and waits on timers drives
//! these machines and feeds their events back in.

pub mod state;
pub mod resolver;
pub mod prober;
pub mod watcher;
pub mod race;
pub mod catalog;
pub mod supervisor;
