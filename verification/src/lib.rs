//! A verified core for a 2D immediate-mode batch renderer.
//!
//! Shapes (rectangles, triangles, circles, text) are assembled each frame
//! into a vertex/index batch in normalized device coordinates, then turned
//! into a capacity-checked frame plan that an unverified GPU shell uploads,
//! draws with a single indexed call, and presents.
//!
//! All geometry is carried in 16.16 fixed-point arithmetic so that every
//! coordinate transform, rotation and layout step is proved exact against
//! its specification; the shell converts to the GPU's floating-point
//! vertex format only at the upload boundary.

pub mod batch;
pub mod color;
pub mod fixed;
pub mod present;
pub mod renderer;
pub mod shapes;
pub mod text;
pub mod trig;

pub use fixed::FX_ONE;
