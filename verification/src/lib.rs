//! Logic behind a drag-and-drop visualizer: classifying a dropped file by
//! its extension, stepping the visualizer's state machine, and laying out
//! viewport rectangles and the grid scene.

pub mod file_id;
pub mod grid;
pub mod viewports;
pub mod visualization;
