//! Captive-portal login window: the decisions behind the input mapping, the
//! event-loop bridge, the connectivity poller and the navigation state.
pub mod cursor;
pub mod events;
pub mod input;
pub mod navigation;
pub mod probe;
pub mod window;
