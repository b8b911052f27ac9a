//! Verified core of a live-thumbnail previewer for a windowing environment.
//!
//! The crate holds the decision and computation logic of the preview daemon:
//! edge snapping during drags, the hotkey cycling registry, session and
//! durable position resolution, display-configuration parsing, the thumbnail
//! state machine with its rendering plans, the event-dispatch decisions, and
//! the framing of the control-socket protocol.  Everything that talks to the
//! outside world (the windowing protocol connection, input devices, sockets,
//! files) lives in the unverified shell around this library and exchanges
//! plain values with it.

pub mod classify;
pub mod color;
pub mod config;
pub mod cycle;
pub mod dispatch;
pub mod geom;
pub mod hotkey;
pub mod hotkey_settings;
pub mod manager_state;
pub mod session;
pub mod snap;
pub mod tables;
pub mod thumbnail;
pub mod wire;
