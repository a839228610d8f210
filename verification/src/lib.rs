//! Decision logic of a single-instance window widget: a canvas element that
//! hosts a native-style window whose size and title follow reactive inputs.
//!
//! The host page does the browser work (querying the document, creating the
//! canvas, building the window, registering the effect, spawning the event
//! loop). This crate holds the decisions behind those steps, verified:
//!
//! * [`mount::plan_mount`] — the duplicate-instance guard and the plan for a
//!   fresh mount (the reserved canvas id and the initial window configuration);
//! * [`config::WindowConfig`] — the window's logical properties, how absent
//!   props fall back to defaults, and what one run of the reactive effect
//!   pushes onto the window.

pub mod config;
pub mod mount;
