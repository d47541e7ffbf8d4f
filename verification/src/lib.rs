//! A personal download manager core: the task lifecycle state machine,
//! the resumable transfer computations, the retry/backoff policy, and the
//! orchestration of concurrent downloads over a shared task registry.
//!
//! Network, disk and user-interface work stays outside this crate; the
//! functions here decide, on plain values handed in, what each download
//! does next, and their contracts pin those decisions down.

pub mod errors;
pub mod naming;
pub mod orchestrator;
pub mod platform;
pub mod policy;
pub mod registry;
pub mod resolver;
pub mod settings;
pub mod task;
pub mod text;
pub mod transfer;
