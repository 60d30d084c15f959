//! Window-chrome logic for a frameless native window whose title bar and
//! buttons are drawn by embedded web content.
//!
//! The library decides; the host application performs the platform calls.
pub mod geometry;
pub mod hit_test;
pub mod style;
pub mod message;
pub mod intent;
pub mod dispatch;
pub mod readiness;
