//! Work-session time tracking.
//!
//! A [`Session`] starts at a [`Moment`] and takes the events that follow: the
//! worker pauses, resumes, and in the end closes the session. Events that do
//! not fit the session's state are dropped. At any time the session gives a
//! [`Report`] of the time that has passed and of how much of it was spent
//! working and resting; while the session runs, that time is measured
//! against a [`Clock`]. A [`SessionState`] keeps many sessions, each under a
//! number.
//!
//! Moments come from `chrono`, which also takes their differences; the
//! library holds them as Unix timestamps.

pub mod clock;
pub mod duration;
pub mod event;
pub mod history;
pub mod moment;
pub mod registry;
pub mod session;

pub use crate::clock::Clock;
pub use crate::duration::Duration;
pub use crate::moment::{Moment, TimeError};
pub use crate::registry::SessionState;
pub use crate::event::{Event, Status};
pub use crate::session::{Report, Session};
