//! Download orchestration for browser binaries: the error taxonomy and its
//! classifier, retry policies, circuit breakers, per-task retry bookkeeping,
//! and the task registry that drives each download through its lifecycle;
//! besides, the launch-parameter configurations of installed browsers and
//! the platform rules for names and paths.

pub mod text;
pub mod registry;
pub mod bignum;
pub mod error;
pub mod retry_policy;
pub mod circuit_breaker;
pub mod retry_manager;
pub mod models;
pub mod download_manager;
pub mod nodejs_runtime;
pub mod checksum;
pub mod platform;
pub mod launch_params;
pub mod parameter_manager;
