//! Observation of operating-system events for a desktop shell: a hidden
//! sentinel window whose messages are fanned out to subscribers, and a hook
//! chain that watches the message traffic of another thread.

pub mod error;
pub mod event_window;
pub mod hook;
pub mod observation;
pub mod pump;
pub mod subscribers;
