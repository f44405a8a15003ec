//! Window-lifecycle and single-instance-activation rules of a desktop shell.
//!
//! The shell keeps a small set of long-lived windows: a main window, one
//! secondary window that shows an external site, and a few helper windows.
//! This crate holds the decisions: which address and size the secondary
//! window gets, whether a request opens it or is absorbed by the one that is
//! already there, what a context-menu action does, which one-time
//! initialisation steps are still owed, and which windows close together.
//! The host that owns the real windows performs what these functions return.

pub mod text;
pub mod window;
pub mod registry;
pub mod address;
pub mod gate;
pub mod menu;
pub mod context;
pub mod controller;
pub mod dispatcher;
pub mod cascade;
