//! Read-only introspection of the windows of a graphical session.
//!
//! The crate holds the logic of the queries "which window has the focus?" and
//! "which windows are open?" for an X11 window manager that advertises the
//! extended window-manager hints, and of the engine that turns the first query
//! into a stream of change notifications.
//!
//! Nothing here talks to a display server. A query is a task that names the
//! next request to perform and is advanced with the reply to it; whoever drives
//! the task owns the connection. What a task makes of the replies is stated
//! twice: step by step, in the contract of the function that takes a reply,
//! and as a whole, as a function of what the desktop answers; a law says that
//! the two agree.
//!
//! The functions are verified against their contracts, with two exceptions in
//! [`text`]: the decoding of UTF-8 is taken from the standard library and that
//! of Latin-1 from the `xcb` crate, and both are believed to do what their
//! documentation says.

pub mod active_window;
pub mod api;
pub mod geometry;
pub mod open_windows;
pub mod poller;
pub mod process;
pub mod protocol;
pub mod registry;
pub mod resolver;
pub mod text;
pub mod window;
