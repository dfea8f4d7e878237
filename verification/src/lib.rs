//! Core logic of a desktop overlay surface that must stay above competing
//! on-screen content, follow the active virtual desktop, and accept limited
//! keyboard input without ever taking OS keyboard focus.
//!
//! The compositor, the notification channel and the input hooks are external
//! collaborators; this crate holds the decision logic they are driven by:
//! the level-escalation arbiter, the desktop-membership tracker and the
//! focusless input router, each with a verified contract.

pub mod input;
pub mod level;
pub mod space;
pub mod surface;
