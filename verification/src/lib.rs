//! Verified core of a status-bar module that displays a compositor's
//! workspaces: the ignore filter and occupancy count, the ordered-view
//! builder, the widget reconciler, the icon and label resolver, and the
//! drag-reorder state machine. All I/O (compositor socket, widget toolkit)
//! lives outside this crate and exchanges plain values with it.

pub mod model;
pub mod filter;
pub mod text;
pub mod view;
pub mod icon;
pub mod label;
pub mod reconcile;
pub mod drag;
pub mod ipc;
