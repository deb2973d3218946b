//! Capture of a display's pixels together with the list of the windows on
//! it, and the write-once state through which one capturing thread hands
//! both to any number of waiting readers.
//!
//! The library decides and computes; it asks nothing of the platform
//! itself. Where a capture alternates between platform calls and decisions,
//! the decisions are a state machine here: the caller performs each action
//! and reports what came of it.

pub mod blit;
pub mod buffer;
pub mod config;
pub mod enumerate;
pub mod error;
pub mod frame;
pub mod geometry;
pub mod orchestrator;
pub mod pixels;
pub mod session;
pub mod slot;
pub mod text;

pub use config::{AppConfig, AppConfigBuilder};
pub use error::CaptureError;
pub use frame::Frame;
pub use geometry::{Rect, WindowInfo};
