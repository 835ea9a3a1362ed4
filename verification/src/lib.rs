//! Verified core of a renderer that compares WebGL and WebGPU: color packing,
//! vertex layouts, mesh index buffers, the answers to window and loop events,
//! and the cadence of the frame statistics.
pub mod color;
pub mod event;
pub mod frame;
pub mod mesh;
pub mod scenario;
pub mod vertex;
