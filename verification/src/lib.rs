//! The logic of a panel applet that shows windows by their titles: which window is the active
//! one, how each is shown, and what the applet does when it is used.

pub mod applet;
pub mod applet_laws;
pub mod config;
pub mod desktop;
pub mod desktop_laws;
pub mod event_loop;
pub mod laws;
pub mod panel;
pub mod panel_laws;
pub mod text;
pub mod text_laws;
pub mod wayland;
pub mod wayland_laws;
