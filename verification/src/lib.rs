//! A single-invocation, sandboxed function executor.
//!
//! A function module is named by a local path or a URL. It is loaded,
//! transpiled where its source is typed or holds markup, and run in a guest
//! runtime that may reach only what it was granted; its entry function is
//! called with a structured input, and what it returns goes back to the host.
//!
//! This library holds the rules of that pipeline and proves them. The host
//! does what only it can do (reading files, sending requests, driving the
//! guest runtime) and asks the library at every step what follows.
//!
//! - [`specifier`] and [`text`]: module specifiers and the resolution of
//!   import strings.
//! - [`media`] and [`transpile`]: the classification of source, and the
//!   transpiler adapter.
//! - [`loader`]: the load protocol around the fetch.
//! - [`sandbox`]: the capability descriptor of a guest runtime.
//! - [`driver`]: the stages of one invocation.
//! - [`lifecycle`]: the set-up and tear-down of the execution platform.
//! - [`error`]: the kinds of failure.

pub mod driver;
pub mod error;
pub mod lifecycle;
pub mod loader;
pub mod media;
pub mod sandbox;
pub mod specifier;
pub mod text;
pub mod transpile;
