//! Materials for deferred physically-based rendering.
//!
//! A material is a triple of texture references.  Equality and ordering are
//! defined by the identity of the referenced textures, never by their
//! content: each unique texture resource carries a stable integer handle,
//! and two materials are equal exactly when all three handles match.  The
//! ordering is a strict lexicographic comparison over the three handles; it
//! has no meaning beyond canonical grouping of draw calls.

use vstd::prelude::*;

verus! {

/// Stable handle of a unique texture resource.  Handle equality stands for
/// identity of the underlying texture.
pub type TextureId = u64;

/// A deferred-shading material: albedo, metalness/roughness and normal
/// textures, compared by texture identity alone.
#[derive(Clone, Copy, Debug, PartialEq, Eq, Hash, PartialOrd, Ord, Structural)]
pub struct Material {
    /// Albedo (base color) texture.
    pub color: TextureId,
    /// Combined metalness/roughness texture.
    pub metal_rough: TextureId,
    /// Normal map texture.
    pub normal: TextureId,
}

impl Material {
    /// True when `self` and `other` reference the same three textures.
    pub fn same_identity(&self, other: &Material) -> (r: bool)
        ensures
            r == (self == other),
    {
        self.color == other.color
            && self.metal_rough == other.metal_rough
            && self.normal == other.normal
    }
}

} // verus!
