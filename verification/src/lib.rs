//! A download engine whose decisions are specified and proved: the per-task
//! retry state machine, the task status registry, rate-limiter refill rules,
//! block planning for ranged downloads and the settling of batched results.

pub mod engine;
pub mod limiter;
pub mod manager;
pub mod task;
pub mod task_handle;
pub mod watcher;
