//! Session and visibility core of a pop-up application launcher.
//!
//! The library holds the decisions: which requests go to the search
//! backend, when the launcher surface is created or destroyed, how the
//! result list, the query and the selection evolve, and how the two
//! long-lived listeners (the host-bus toggle listener and the backend
//! session driver) step from one state to the next. The surrounding
//! program performs the effects that these functions hand back.

pub mod protocol;
pub mod launcher;
pub mod lemmas;
pub mod toggle_dbus;
pub mod session;
pub mod keys;
pub mod desktop_entry;
pub mod display;
pub mod icon_choice;
