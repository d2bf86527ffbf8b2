//! Observability envelope around one invocation of a command-line automation
//! tool.
//!
//! The crate tracks a single unit of work per invocation as a
//! [`transaction::UnitOfWork`], attaches best-effort context facts to it,
//! guarantees that exactly one terminal outcome is recorded, and computes the
//! process exit code from the outcome.  Delivery goes to a `sentry` backend,
//! which is opt-in: without an endpoint every capture is a no-op and nothing
//! else about an invocation changes.

pub mod backend;
pub mod context;
pub mod decimal;
pub mod errors;
pub mod events;
pub mod laws;
pub mod run;
pub mod transaction;

pub use backend::backend_enabled;
