//! Verified core of a cross-platform screen and window capture library.
//!
//! The crate enumerates displays and application windows through an OS
//! capture backend, filters out OS-owned "chrome" surfaces with
//! platform-specific blocklists, assigns the primary-monitor flag by
//! position, and orchestrates still-frame captures encoded as PNG.

pub mod types;

pub mod textmatch;

pub mod registry;

pub mod catalog;

pub mod backend;

pub mod codec;

pub mod capture;
