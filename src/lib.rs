//! State, scroll configuration and canvas geometry of a scrollable-canvas demo.
pub mod canvas;
pub mod scroll;
pub mod state;
