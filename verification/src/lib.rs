//! Milo: a desktop companion whose behavior is decided by small, verified
//! state machines.

pub mod activity;
pub mod animation;
pub mod behavior;
pub mod browser;
pub mod browser_listener;
pub mod distraction;
pub mod intervention;
pub mod narrative;
pub mod native_host;
pub mod presentation;
pub mod text;
pub mod world;
