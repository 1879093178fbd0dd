//! Slate: the document model and edit history of a layered raster image
//! editor, project validation, render snapshots, pixel transforms and
//! filters, and the decisions behind the editor window's actions, panels,
//! command palette and file naming.

pub mod actions;
pub mod document;
pub mod editor;
pub mod float_bits;
pub mod image;
pub mod layer_panel;
pub mod palette;
pub mod paths;
pub mod session;
pub mod text;
pub mod tile;
pub mod tools;
pub mod window_actions;
