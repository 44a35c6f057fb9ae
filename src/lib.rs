//! A guard that owns a running task's handle and makes sure the task is joined
//! exactly once: either when the owner asks for it, or when the guard leaves
//! scope. Hooks registered with the guard run around that join.
//!
//! The library holds the guard's lifecycle: which parts it still owns, and
//! what must happen, in which order, when it is left explicitly or implicitly.
//! The caller performs the steps it is handed (calling the hooks, blocking on
//! the task).

pub mod guard;
pub mod protocol;

pub use guard::{Guard, GuardView, Teardown};
pub use protocol::{Exit, Lifecycle, Step};
