//! A pane arrangement in which every pane may hold a nested arrangement.
//!
//! [`PaneSystem`] keeps a pane grid and, per pane identifier, an optional
//! nested pane system. [`PaneMessage`] names the three changes that it takes,
//! and [`controls`] lists the buttons that send them.

pub mod grid;
pub mod laws;
pub mod message;
pub mod system;

pub use grid::PaneId;
pub use message::{controls, Control, PaneMessage};
pub use system::PaneSystem;
