//! Composable signal-processing blocks: series and parallel composition,
//! fan-out, and the layout of their visual artifacts (canvases, ports,
//! connectors and the rectangles that route pointer hovers).

pub mod arity;
pub mod compose;
pub mod control;
pub mod dsp;
pub mod geometry;
pub mod graph;
pub mod visual;
pub mod wav;
