//! Change detection, build dispatch, sandboxed build classification and
//! result reporting for a set of tracked packages.
//!
//! The modules hold the decisions of the pipeline; talking to the broker,
//! the database and the container runtime is left to the caller, which
//! hands the outcomes back as plain values.
//!
//! - [`retry`]: the bounded, constant-interval connection retry policy.
//! - [`upstream`]: the upstream state of a package from an AUR answer or a
//!   git checkout.
//! - [`store`]: the package state store, its update rule and an in-memory
//!   store.
//! - [`dispatch`]: change detection and the build tasks it emits.
//! - [`orchestrator`] and [`job`]: build containers, log lines, exit
//!   classification and the life of one build task.
//! - [`reporter`]: recording build results and forwarding them.
//! - [`catalog`]: descriptions of build exit codes.

pub mod catalog;
pub mod config;
pub mod dispatch;
pub mod errors;
pub mod job;
pub mod orchestrator;
pub mod reporter;
pub mod retry;
pub mod store;
pub mod text;
pub mod types;
pub mod upstream;
