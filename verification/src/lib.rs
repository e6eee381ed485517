//! A minimal real-time rendering sandbox, modelled as verified plan-building
//! logic: vertex-layout descriptors, mesh resources, texture resources,
//! pipeline descriptors and a render context that handles resizing and
//! produces the command plan for each frame. A thin host executes the plans
//! against the GPU and the window system.

pub mod app;
pub mod mesh;
pub mod pipeline;
pub mod texture;
pub mod vertex;
