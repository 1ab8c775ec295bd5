//! Startup policy of a desktop shell.
//!
//! The shell is a thin host around an application framework: it configures
//! the framework once, hands control to the framework's event loop, and
//! aborts if the application cannot be started. This crate holds the
//! decisions of that sequence as plain values:
//!
//! * [`policy`]: which activation policy the application takes on which
//!   platform;
//! * [`plugins`]: which plugins are registered, and in which order;
//! * [`plan`]: both together, as the plan that the host carries out;
//! * [`failure`]: what a failed start leads to.
//!
//! Nothing here touches the framework. The caller carries the plan out and
//! reports back how the run ended.

pub mod failure;
pub mod plan;
pub mod plugins;
pub mod policy;
