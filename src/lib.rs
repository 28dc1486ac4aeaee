//! Navigation and derived-state controller for a messaging client's sidebar.
//!
//! The library holds the sidebar's decisions as plain state machines: which
//! pane is shown, which session is bound, and which rows and actions are
//! visible or enabled. A widget layer feeds it events and applies the effects
//! that it hands back.
pub mod navigation;
pub mod controller;
