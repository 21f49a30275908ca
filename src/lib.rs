//! A generic connection pool.
//!
//! The pool keeps a fixed number of expensive, stateful resources (typically
//! database connections) and lends them to callers one at a time.  This crate
//! holds the pool's bookkeeping as verified state machines:
//!
//! * [`config`]: the pool's settings and their validation;
//! * [`task`]: the deadline-ordered job queue of the helper workers;
//! * [`pool`]: the ready queue, the live-resource count and the checkout and
//!   return protocol.
//!
//! Blocking, waking and running jobs on threads are left to the caller: every
//! decision that needs a lock or a wait is a method that takes the current
//! state and tells the caller what to do next.

pub mod config;
pub mod pool;
pub mod task;

pub use config::{Config, ConfigError};
pub use pool::{ErrorHandler, NoopErrorHandler, Pool, PoolInternals, PoolManager, PooledConnection};

pub use task::ScheduledThreadPool;
