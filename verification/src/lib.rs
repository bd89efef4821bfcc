//! Verified core of a system-wide event-interception pipeline.
//!
//! A controller process loads a shared callback module, installs a global
//! debug-category hook bound to it, pumps the event loop until a quit signal
//! is observed, and then tears the hook and the module down in strict order.
//! Inside every process the hook fires in, a callback classifies the event,
//! resolves the originating process and thread, and appends one record to a
//! shared append-only log, always forwarding the event onward.
//!
//! This crate holds the decision logic of both sides, verified: event
//! classification, origin resolution, record formatting, the per-process log
//! sink model, and the controller's resource-lifecycle state machine. The
//! operating-system calls themselves live in the surrounding binary, which
//! hands this library plain values and performs the actions it decides on.

pub mod controller;
pub mod hook_type;
pub mod pipeline;
pub mod record;
