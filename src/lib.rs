//! Clipboard bridge between the X11 selection protocol and the Wayland
//! data-control protocol.
//!
//! The library holds the decisions of the bridge: the clipboard value type,
//! the reconciler that forwards observations between the two sides without
//! echoes, and the two adapters' state machines. Each adapter function takes
//! plain values from the protocol layer and returns what to do next.
pub mod text;
pub mod content;
pub mod reconciler;
pub mod x11;
pub mod wayland;
pub mod laws;
