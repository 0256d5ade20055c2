//! Declarative system-tray state with a verified menu model.
//!
//! The crate models a tray icon as plain application state: an optional icon,
//! an optional tooltip and a tree of menu entries addressed by string ids.
//! The tree can be mutated by id, projected into a description of the
//! platform's native menu graph, and compared against the last synchronized
//! snapshot so that the native widget is only rebuilt when the declared state
//! actually changed. Click notifications drained from the platform are turned
//! into application events in arrival order.

pub mod error;
pub mod native;
pub mod plugin;
pub mod resource;
