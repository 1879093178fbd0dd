//! Editing tools: their kinds as the toolbar lists them, pointer buttons
//! and keyboard modifiers.

pub mod tool;
