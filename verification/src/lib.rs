//! Verified core of a small serverless platform that stores WebAssembly
//! functions in an object store, runs them on demand in a separate
//! `wasmtime` process and keeps per-function execution metrics.
//!
//! - [`metrics`]: the metrics of one function and how a run updates them.
//! - [`store`]: the metrics of all functions, keyed by name.
//! - [`runner`]: how a run's answer is decided and recorded.
//! - [`paths`]: function names and the files that hold modules.
//! - [`service`], [`upload`] and [`flow`]: the answers to the HTTP requests and
//!   the steps that running and uploading a function go through.
//! - [`storage`]: how the object store is reached.
//! - [`decimal`] and [`text`]: decimal numbers and text helpers.
//! - [`template`]: the sample function new functions start from.

pub mod decimal;
pub mod flow;
pub mod metrics;
pub mod paths;
pub mod runner;
pub mod service;
pub mod storage;
pub mod store;
pub mod template;
pub mod text;
pub mod upload;
