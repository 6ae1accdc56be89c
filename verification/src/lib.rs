//! Verified core of a touch whiteboard: page bookkeeping, keyboard shortcuts,
//! frame decisions, screenshot pixel conversion and log formatting.

pub mod pages;
pub mod screenshot;
pub mod logging;
pub mod display;
pub mod input;
pub mod frame;
pub mod events;
pub mod icon;
pub mod touches;
