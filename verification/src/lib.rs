//! Verified core of an immediate-mode GUI rendering backend.
//!
//! The library translates a frame of UI draw data — draw lists of vertices,
//! indices and clipped, textured sub-commands — into the exact ordered
//! sequence of rendering instructions a host records into its command
//! buffer, and manages the state that translation needs: a texture
//! registry with fresh identifiers, a font-atlas slot addressed by a
//! reserved sentinel identifier, and a cache of per-texture descriptor
//! bindings with explicit invalidation. Screen coordinates travel as
//! single-precision bit patterns, and the culling, clamping and rounding
//! the translation does on them is carried out bit-exactly in integer
//! arithmetic. The host supplies what only it can compute: GPU objects,
//! and the products of its floating-point unit.

use vstd::prelude::*;

pub mod bits;
pub mod cache;
pub mod draw;
pub mod renderer;
pub mod textures;
pub mod vertex;

pub use cache::DescriptorSetCache;
pub use draw::{DrawCmd, DrawData, DrawList, GpuOp, ImageDimensions};
pub use renderer::{DrawError, Renderer, RendererError};
pub use textures::{TextureId, Textures};
pub use vertex::{adapt_vertices, DrawVert, Vertex};

verus! {

/// Reserved texture identifier that always denotes the font atlas texture.
pub const FONT_TEX_ID: usize = usize::MAX;

} // verus!
