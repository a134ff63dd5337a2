//! Effect kinds and their classification.
//!
//! An effect either maps onto a scene-native primitive (blur halo, layer
//! transform, clip, box shadow) or needs a GPU compute pass (colour matrix,
//! CSS filter op). The parameters of each effect are floating-point values
//! and are carried by the renderer; the classification lives here.

use vstd::prelude::*;

verus! {

/// Types of Mustang effects.
#[derive(Debug, Clone, PartialEq, Eq, Structural)]
pub enum EffectType {
    /// Gaussian blur effect for backdrop-filter.
    BackdropBlur,
    /// 2D transform (scale, translate, rotate).
    Transform2D,
    /// Color adjustment (multipliers and offsets).
    ColorAdjust,
    /// Clip/mask effect for security gating.
    Clip,
    /// Drop shadow (CSS `box-shadow` / `filter: drop-shadow`).
    DropShadow,
    /// One canonical CSS filter op (`hue-rotate`, `saturate`, `brightness`,
    /// `contrast`, `grayscale`, `invert`).
    CanonicalFilter,
}

/// The kinds drawn with a scene-native primitive.
pub open spec fn native_kind(t: EffectType) -> bool {
    match t {
        EffectType::BackdropBlur | EffectType::Transform2D | EffectType::Clip
        | EffectType::DropShadow => true,
        _ => false,
    }
}

/// The kinds deferred to a GPU compute pass.
pub open spec fn gpu_compute_kind(t: EffectType) -> bool {
    match t {
        EffectType::ColorAdjust | EffectType::CanonicalFilter => true,
        _ => false,
    }
}

impl EffectType {
    /// True if an effect of this kind can be applied scene-natively.
    pub fn is_native(&self) -> (b: bool)
        ensures
            b == native_kind(*self),
    {
        match self {
            EffectType::BackdropBlur => true,
            EffectType::Transform2D => true,
            EffectType::Clip => true,
            EffectType::DropShadow => true,
            EffectType::ColorAdjust => false,
            EffectType::CanonicalFilter => false,
        }
    }

    /// True if an effect of this kind requires GPU compute.
    pub fn requires_gpu_compute(&self) -> (b: bool)
        ensures
            b == gpu_compute_kind(*self),
    {
        match self {
            EffectType::ColorAdjust => true,
            EffectType::CanonicalFilter => true,
            _ => false,
        }
    }
}

/// The kinds applied as a layer around later drawing (a transform or a
/// clip): they push a layer that must be popped when the content is drawn.
pub open spec fn layer_scope_kind(t: EffectType) -> bool {
    match t {
        EffectType::Transform2D | EffectType::Clip => true,
        _ => false,
    }
}

impl EffectType {
    /// True if an effect of this kind is applied as a layer scope (pushed,
    /// then popped after the content it covers).
    pub fn is_layer_scope(&self) -> (b: bool)
        ensures
            b == layer_scope_kind(*self),
    {
        match self {
            EffectType::Transform2D => true,
            EffectType::Clip => true,
            _ => false,
        }
    }

    /// True if an effect of this kind is applied in one shot, not as a layer
    /// scope.
    pub fn is_one_shot(&self) -> (b: bool)
        ensures
            b == !layer_scope_kind(*self),
    {
        !self.is_layer_scope()
    }
}

/// Layer-scope effects are scene-native: a layer scope never needs a GPU
/// compute pass.
pub proof fn law_layer_scopes_are_native(t: EffectType)
    ensures
        layer_scope_kind(t) ==> native_kind(t) && !gpu_compute_kind(t),
{
}

/// Every effect kind is either scene-native or GPU-compute, never both and
/// never neither.
pub proof fn native_and_gpu_compute_partition(t: EffectType)
    ensures
        native_kind(t) != gpu_compute_kind(t),
{
}

/// Quality levels for blur effects.
#[derive(Debug, Clone, Copy, PartialEq, Eq, Hash, Structural)]
pub enum BlurQuality {
    /// Fast, good for previews.
    Low,
    /// Balanced.
    Medium,
    /// Best quality, slower.
    High,
    /// Maximum quality.
    Ultra,
}

impl Default for BlurQuality {
    fn default() -> (q: Self)
        ensures
            q == BlurQuality::High,
    {
        BlurQuality::High
    }
}

/// Number of blur passes a blur effect is built with.
pub const DEFAULT_BLUR_PASSES: u32 = 2;

/// Z-order of clip effects: clips are always on top.
pub const CLIP_Z_INDEX: i32 = 9999;

} // verus!
