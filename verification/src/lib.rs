//! Lays a still logo over a video, at a corner and a width of the user's choice.
//!
//! The library holds what a job decides and computes: the geometry of the
//! overlay, the name of the output file, the scaling of the logo, the values
//! bound to the stages of the processing graph, and the two state machines
//! that follow the construction of the graph and its run. Reading and
//! writing files, and talking to the media engine, are left to the caller.

pub mod asset;
pub mod driver;
pub mod error;
pub mod geometry;
pub mod job;
pub mod output_path;
pub mod pipeline;
pub mod raster;
