//! Verified core of a renderer's object layer.
//!
//! The library decides everything discrete about a renderable object: which
//! vertices a primitive has and how they are indexed, what a shape needs from
//! the device and in which order it is created, bound, drawn and released, and
//! how a swapchain is configured and recreated. Floating-point evaluation and
//! the device calls themselves belong to the caller, who exchanges plain values
//! with the functions here.
//!
//! - [`scalar`], [`space`]: numbers as bit patterns, exact vertices, meshes.
//! - [`geometry`], [`properties`]: the meshes of square, cube, sphere, ring
//!   and loaded model, from their parameters.
//! - [`render_config`], [`shape`]: a shape, its configuration and its life
//!   from unbuilt to built and back.
//! - [`resources`], [`binder`], [`draw`]: device handles, the build of a
//!   shape's resources request by request, and the commands of a draw.
//! - [`swap_chain`], [`render_pass`], [`frame_buffer`], [`memory`]: what the
//!   device is asked to create, from what it reports.
//! - [`engine`]: the swapchain's states and the frame.
//! - [`display`]: what follows from an event of the window.
//! - [`vulkan`]: the numbers of the Vulkan headers that the rules depend on.

pub mod binder;
pub mod display;
pub mod draw;
pub mod engine;
pub mod frame_buffer;
pub mod geometry;
pub mod memory;
pub mod properties;
pub mod render_config;
pub mod render_pass;
pub mod resources;
pub mod scalar;
pub mod shape;
pub mod space;
pub mod swap_chain;
pub mod vulkan;
