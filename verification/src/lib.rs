//! The asynchronous file-operation engine of a terminal file manager, as a
//! verified core: the task planner that decomposes paste, link, delete and
//! trash requests into per-file leaf operations by walking directory trees,
//! the worker executor that decides each leaf's fate under partial-failure
//! tolerance and bounded retry, the two-tier priority dispatch queue, the
//! post-order directory pruner, and the notification boundary. The
//! surrounding runtime performs the filesystem calls and hands their
//! outcomes in as plain observations; every decision and every emitted
//! progress event is specified and proved here.

pub mod file;
pub mod laws;
pub mod notify;
pub mod path;
pub mod prune;
pub mod queue;
pub mod types;
pub mod walk;
