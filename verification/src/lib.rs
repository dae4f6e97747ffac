//! A pan-and-zoom viewer for line documents, with a brush that a GPU compute stage
//! stamps at the cursor.
//!
//! Everything here is on the integer grid: a coordinate of document space or of the
//! screen is a whole number of units, and a scale is the fraction of two extents. A host
//! that works in fractions of a unit rounds at its edge.
//!
//! - `geometry`: points, rectangles, and the map that stretches one rectangle onto
//!   another.
//! - `document`: the segments and their traversal by a visitor.
//! - `renderer`: the visitor that turns segments into strokes.
//! - `viewport`: the visible rectangle and the cursor under pointer tracking, zoom and
//!   pan, and the fit gesture.
//! - `brush`: the binding layout and push constants of the brush stage, and its life
//!   cycle.
//! - `vulkan`: those declarations as Vulkan structures.
//! - `editor`: the panels, one frame of the view panel, and the dispatch of a frame.

pub mod geometry;
pub mod document;
pub mod renderer;
pub mod viewport;
pub mod brush;
pub mod vulkan;
pub mod editor;
