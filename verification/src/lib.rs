//! A software renderer for a small planetary scene, written in Q16.16
//! fixed-point arithmetic: vertex transformation, triangle rasterization,
//! procedural materials and a depth-tested framebuffer.

pub mod color;
pub mod fixed;
pub mod fragment;
pub mod framebuffer;
pub mod light;
pub mod noise;
pub mod render;
pub mod shaders;
pub mod triangle;
pub mod uniforms;
pub mod vecmat;
pub mod vertex;
