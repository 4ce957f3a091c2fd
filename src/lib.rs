//! Tray and menu state synchronisation for a tray-resident desktop application.
//!
//! The library decides; the host performs. A [`controller::TrayController`] receives
//! tray clicks, menu selections and the results of operating-system queries and
//! mutations, and answers each with the next [`controller::Action`] to perform. The
//! labels of the togglable menu items are kept in a [`menu::Menu`] registry and are
//! only ever rewritten from a confirmed operating-system reading.
pub mod controller;
pub mod laws;
pub mod menu;
