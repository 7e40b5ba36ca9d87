//! A control panel for the brightness and gamma of the connected displays.
//!
//! The library holds what is decided: which action a key triggers, where the
//! user is on the screen, what the backend is asked when a value changes, and
//! what the registry of displays holds once the backend has answered. It does
//! not touch the terminal or the backend itself: whoever runs it draws the
//! screen, reads the keys, calls the backend, and reports how the call went.
pub mod app;
pub mod disp_mgr;
pub mod inputs;
pub mod io;
pub mod text;
