//! A verified model of a small desktop application scaffold.
//!
//! The scaffold wires a single window to a user-preference store: the
//! window's width, height and maximized flag are loaded when the window is
//! built and written back when it closes.  An application object owns the
//! window and two menu actions (quit and about), and an elm-style component
//! maps user-interface events to state updates.  The GUI toolkit itself —
//! widget construction, the event loop, the on-disk preference service —
//! lives outside this crate; everything the scaffold decides or computes is
//! modelled and proved here on plain values.

pub mod app;
pub mod application;
pub mod config;
pub mod css;
pub mod settings;
pub mod window;

pub use config::app_id;
pub use config::version;
