//! A verified core for an image-browser gallery: a filterable list of image
//! paths arranged in a fixed-width grid, with a current selection, slideshow
//! navigation, and a transient boundary alert.
//!
//! The library owns the index arithmetic and the state transitions; rendering,
//! input handling and file-system access live outside it.

pub mod app;
pub mod filter;
pub mod grid;
pub mod state;
pub mod text;
