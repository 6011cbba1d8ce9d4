//! Batched rendering core for procedurally defined 2D shapes.
//!
//! Each shape is described by a signed-distance function (SDF) and a fill
//! function, both given as GPU shader source fragments. The library composes
//! complete fragment programs out of independently registered fragments,
//! caches them per combination, generates the matching per-instance vertex
//! layout and vertex-stage source, snapshots visible shapes each frame, and
//! packs them into contiguous same-shader draw batches.
//!
//! All scalar shape data (colors, transforms, parameters) is carried as raw
//! 32-bit words, so the packed instance buffer is bit-exact by construction;
//! converting between `f32` values and their bit patterns is the caller's
//! concern, as are the GPU itself, depth sorting and asset file I/O.
//!
//! The modules follow the per-frame data flow: [`schema`] and
//! [`param_usage`] describe parameter slots, [`registry`] owns the authored
//! fragments, [`components`] holds the authored shape data, [`extract`]
//! snapshots the visible shapes each frame, [`composer`] generates and
//! caches one fragment program per combination, [`vertex_layout`] derives
//! the instance layout and vertex stage from the parameter capacity,
//! [`pipeline`] caches one compiled pipeline per view specialization, and
//! [`batch`] packs the frame into contiguous same-shader draw batches.
//! [`render`] ties the phases together in their fixed order.

use vstd::prelude::*;

pub mod param_usage;
pub mod batch;
pub mod components;
pub mod composer;
pub mod extract;
pub mod pipeline;
pub mod registry;
pub mod render;
pub mod schema;
pub mod text;
pub mod vertex_layout;

verus! {

/// A shape function may address at most this many parameter slots per kind;
/// a slot index must be strictly below it.
pub const MAX_PARAM_SLOTS: u32 = 32;

} // verus!
