//! Stroke capture and classification pipeline for a freehand symbol pad.
//!
//! The library holds the logic of the pad: the geometry of strokes, the
//! state machine that turns pointer drags into strokes, the renderer that
//! turns the drawing into paint commands, and the decisions of the
//! classification worker and of the result display.
pub mod geometry;
pub mod capture;
pub mod render;
pub mod pipeline;
pub mod laws;
