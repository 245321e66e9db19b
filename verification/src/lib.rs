//! Startup wiring for a minimal desktop planner application.
//!
//! The application shell itself is provided by an outside framework; the
//! logic that is worth stating precisely is the startup sequence: which
//! capability plugins are registered and in what order, on which platforms
//! the deep-link schemes are registered with the operating system, and how
//! a failure during startup is handled.  Those decisions live here as a
//! small verified state machine; the framework calls themselves are made by
//! the unverified shell around this library.

pub mod guarantees;
pub mod platform;
pub mod plugins;
pub mod startup;
