//! Request resolution and frame sequencing for a chess board image service.
//!
//! The crate turns weakly typed client input into a bounded, ordered and
//! fully determined description of what has to be drawn: which sprite sheet,
//! which squares are marked and where they land on the pixel grid, and how
//! long every frame of an animation is shown.
pub mod api;
pub mod assets;
pub mod chess;
pub mod render;
