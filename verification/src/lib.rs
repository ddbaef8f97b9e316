//! Viewer for STL triangle meshes: an adapter that re-indexes a parsed mesh
//! into the buffers a renderer expects, the decision logic of the render loop,
//! and the command-line path selection.

pub mod cli;
pub mod mesh;
pub mod viewer;
