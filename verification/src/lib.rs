//! Building blocks for small OpenGL programs: a camera's decisions, shader
//! stages and programs, textures, meshes, and what a window's events ask for.
//!
//! Nothing in this crate calls the graphics API, opens a window or reads a
//! file. Where the work is a conversation with the graphics driver, a type
//! of this crate holds its state: it says which call comes next and takes
//! the answer, and the caller makes the call.
pub mod camera;
pub mod common;
pub mod convert;
pub mod flashlight;
pub mod mesh;
pub mod numbers;
pub mod shaders;
pub mod textures;
