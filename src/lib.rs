//! Power caps and backlight brightness of a handheld's sysfs control files.
//!
//! Each access is a small state machine: it hands its caller filesystem
//! requests, takes back what came of them, and decides what follows, so
//! every decision is made here and every filesystem operation by the caller.
pub mod backlight;
pub mod decimal;
pub mod error;
pub mod exchange;
pub mod power;
