//! Native backend logic of a tray-resident desktop application.
//!
//! The host GUI runtime owns the real window, the tray icon and the event
//! loop; this crate owns every decision the backend makes: whether the
//! process was launched hidden, whether to register autostart at login,
//! which action each tray or window event demands, and the visibility
//! state machine that turns a close request into hide-to-tray.

pub mod autostart;
pub mod controller;
pub mod launch;
pub mod startup;
