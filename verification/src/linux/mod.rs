//! Screen capture on Linux: the desktop portal grants a session, PipeWire carries the frames.

pub mod dbus;
pub mod pipewire;
