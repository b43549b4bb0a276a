//! Session management for pseudo-terminals: geometry, the search order for the
//! program that runs inside a terminal, the table of live sessions, and the
//! decisions of the output pump.
pub mod geometry;
pub mod ident;
pub mod locator;
pub mod pump;
pub mod registry;
pub mod session;
