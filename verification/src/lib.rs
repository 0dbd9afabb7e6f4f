//! In-process instrumentation core for a rendering addon: a hook lifecycle
//! manager for a native detour primitive, a frame pacer that converts a target
//! frame rate into an enforced inter-call interval, and a window-state machine
//! that classifies window messages and drives pacing policy and a tray icon.
//!
//! All operating-system work (posting messages, the notification area, the
//! hooking primitive, clocks and sleeping) happens outside this crate; the
//! library holds the decisions and the arithmetic, each with its contract.

pub mod mh;
pub mod pacer;
pub mod wm;
pub mod addon;
