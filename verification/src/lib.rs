//! Compatibility bridge for loading legacy Node.js-style modules in an
//! ECMAScript-module runtime.
//!
//! The crate decides, for a given entry module, whether it should run under
//! the ESM or the CommonJS loading model, and redirects requests for Node
//! built-in module names ("fs", "http", ...) to shim modules under a
//! configurable base location.

pub mod builtins;
pub mod config;
pub mod escape;
pub mod imports;
pub mod loader;
