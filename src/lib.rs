//! Sizing and per-frame decisions of a window that shows a terminal grid: cell and
//! window dimensions from font metrics, coalescing of resize events, the draw-API scopes
//! of a frame, and a rolling meter of frame times.
pub mod display;
pub mod meter;
pub mod size;
