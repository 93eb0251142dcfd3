//! The core of a real-time 3D simulation engine, without its floating point
//! and without its devices.
//!
//! The library keeps the books of the engine and makes its decisions: which
//! entities there are and which batch of geometry owns each of them, when a
//! batch has to be rebuilt, what the keys and the pointer ask for, which
//! graphics device to use and how a frame goes on after a failure. Every
//! function is proved against its contract. What moves bodies, multiplies
//! matrices or talks to a device stands around the library and hands it
//! plain values; vertices and rigid transforms pass through as type
//! parameters, and rigid bodies as the handles that `rapier3d` gives them.
//!
//! - [`entity`]: the world of entities and its part of a frame.
//! - [`render_system::scene`]: a batch of geometry with a lazily rebuilt
//!   vertex buffer.
//! - [`render_system::rendering3d`]: the choice of a device, and the states
//!   of a renderer that draws to a window.
//! - [`render_system::offscreen_rendering`]: the size of an image that is
//!   read back.
//! - [`handle_user_input`]: the held keys and what they stand for.
//! - [`camera`]: camera commands, and the pointer of a trackball camera.
//! - [`grid`], [`scene`], [`objectbuilder`], [`vertex`]: meshes on the
//!   integer lattice, and the triangles of boxes and ribbons.

pub mod camera;
pub mod entity;
pub mod grid;
pub mod handle_user_input;
pub mod objectbuilder;
pub mod render_system;
pub mod scene;
pub mod vertex;
