//! Turning quads into what the graphics driver is handed.
pub mod quads;
