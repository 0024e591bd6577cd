//! Process lifecycle engine for a task manager: a registry that reconciles
//! OS process snapshots into stable task records, a deadline scheduler that
//! turns elapsed time into termination decisions, a heuristic window-discovery
//! algorithm, and a graceful-termination protocol. All OS surfaces (process
//! snapshots, process control, window enumeration, input injection, clocks)
//! are consumed as plain values supplied by the caller.

pub mod discovery;
pub mod manager;
pub mod protocol;
pub mod targets;
pub mod task;
pub mod text;
