//! Native-side bootstrap core of a desktop application shell.
//!
//! The library models and verifies the bootstrap-and-capability-scoping
//! sequence: resolving the application's resource directory, deriving the
//! concrete sub-path granted to the front-end, registering that path into a
//! filesystem capability scope, and exposing the typed command surface. The
//! host runtime (window system, message transport, event loop) is an external
//! collaborator driven from outside the library.

pub mod bootstrap;
pub mod dispatch;
pub mod greet;
pub mod paths;
pub mod scope;
pub mod strutil;
