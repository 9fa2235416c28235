//! Host-side bridge for running sandboxed guest programs that drive
//! kernel-level (eBPF) observability programs.
//!
//! The guest runs inside a bytecode engine and may only reach the host
//! through a fixed set of bridge functions.  This crate holds the verified
//! core of that bridge: bounds-checked access to guest linear memory, the
//! session-owned resource table with monotonic, never-reused handles, the
//! attachment policy, and the decision logic of each bridge entry point.
//! The engine itself and the kernel-object library are collaborators at the
//! edge; their calls are made by the embedding program, which hands their
//! outcomes to the verified functions here.

pub mod attach;
pub mod bridge;
pub mod errors;
pub mod mapops;
pub mod memory;
pub mod poll;
pub mod state;
