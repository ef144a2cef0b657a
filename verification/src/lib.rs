//! Hardware command encoding and triangle setup for a fixed-function
//! tile-based rasterizer, together with a behaviourally equivalent
//! batched backend for desktop development.
//!
//! Screen coordinates are carried in a 16.16 fixed-point type of the
//! library's own ([`fixed::Fixed`]); callers that work in floating point
//! convert at the boundary.

pub mod color;
pub mod command_buffer;
pub mod command_buffer_emu;
pub mod draw;
pub mod error;
pub mod fixed;
pub mod geom;
pub mod parity;
pub mod rdp_command_builder;
pub mod systems;
pub mod triangle;
