//! The pet's state as the display layer reads it.
pub mod state;
pub mod to_display;
