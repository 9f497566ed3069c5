//! A verified model of a thin 2D-drawing wrapper layer: geometry and color
//! value types, brush and stroke-style definitions, a type-state path
//! builder, text layout hit-testing, and the begin/end-draw frame protocol
//! that keeps a swap-chain or command-list render target consistent.

pub mod brush;
pub mod context;
pub mod d2d;
pub mod d3d11;
pub mod d3d12;
pub mod error;
pub mod geometry;
pub mod image;
pub mod path;
pub mod shape;
pub mod stroke_style;
pub mod text;
