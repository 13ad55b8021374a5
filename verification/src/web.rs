//! Colour helpers for the rendering layer.

pub mod colour;
