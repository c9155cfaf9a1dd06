//! Query and request operating-system privacy permissions.
//!
//! Each supported permission kind comes with a pair of operations: a
//! side-effect-free `check` that reads the current authorization state, and a
//! `request` that triggers the native consent flow (a system prompt, or a
//! redirect to the system settings where no programmatic prompt exists).
//!
//! The verified core of the crate is the decision logic of each adapter: how a
//! raw native status code, probe outcome, or launch report is turned into a
//! granted/not-granted answer or a request outcome. The native calls
//! themselves are platform glue that a host binary supplies; they hand this
//! library plain values and take plain values back.

pub mod adapter;
pub mod disk;
pub mod kinds;
pub mod laws;
pub mod native;
pub mod settings;
