//! A counter demo rendered through egui and wgpu: the counter, the surface
//! configuration policy, and the decisions of the frame loop.
pub mod counter;
pub mod frame_loop;
pub mod surface;
