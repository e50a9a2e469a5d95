//! Layout of a dockable-panel workspace: a binary tree of splits that shares a
//! rectangle out among views.

pub mod error;
pub mod geometry;
pub mod split;
pub mod workspace;

pub use crate::error::Error;
pub use crate::geometry::{Ratio, Rect};
pub use crate::split::{Container, Direction, Split, View, ViewHandle};
pub use crate::workspace::{Workspace, WINDOW_BORDER};
