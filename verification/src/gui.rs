//! The window system's scheduling-facing state: window identities and
//! positions, and the window events that tasks exchange.

pub mod window_manager;
pub mod windows;
