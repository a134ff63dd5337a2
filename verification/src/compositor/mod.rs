//! Compositor: synthetic CSS features, the reading of their values, the
//! matching of element selectors, and the buffer compositor.

pub mod css;
pub mod selector;

use crate::effect::EffectType;
use vstd::prelude::*;
use vstd::slice::slice_to_vec;

verus! {

/// Declares `anyhow::Error`, the error type of `anyhow::Result`, to Verus,
/// as an opaque value.
#[verifier::external_type_specification]
#[verifier::external_body]
pub struct ExAnyhowError(anyhow::Error);

/// Types of synthetic CSS features.
#[derive(Debug, Clone, PartialEq, Eq, Structural)]
pub enum FeatureType {
    /// `backdrop-filter`.
    BackdropFilter,
    /// `transform`.
    Transform,
    /// Colour adjustment filters.
    ColorAdjust,
    /// `clip-path` or security clipping.
    Clip,
}

/// The kind of effect a synthetic feature becomes: a backdrop filter a
/// backdrop blur, a transform a 2D transform, a colour adjustment a colour
/// adjustment, and a clip a clip.
pub open spec fn feature_effect(f: FeatureType) -> EffectType {
    match f {
        FeatureType::BackdropFilter => EffectType::BackdropBlur,
        FeatureType::Transform => EffectType::Transform2D,
        FeatureType::ColorAdjust => EffectType::ColorAdjust,
        FeatureType::Clip => EffectType::Clip,
    }
}

/// The kind of effect a synthetic feature of kind `f` becomes.
pub fn effect_type_for(f: &FeatureType) -> (t: EffectType)
    ensures
        t == feature_effect(*f),
{
    match f {
        FeatureType::BackdropFilter => EffectType::BackdropBlur,
        FeatureType::Transform => EffectType::Transform2D,
        FeatureType::ColorAdjust => EffectType::ColorAdjust,
        FeatureType::Clip => EffectType::Clip,
    }
}

/// Distinct feature kinds become distinct effect kinds.
pub proof fn law_feature_effects_distinct(f: FeatureType, g: FeatureType)
    ensures
        feature_effect(f) == feature_effect(g) ==> f == g,
{
}

/// Synthetic feature from CSS normalization.
#[derive(Debug, Clone)]
pub struct SyntheticFeature {
    /// The kind of feature.
    pub feature_type: FeatureType,
    /// The selector of the element it applies to.
    pub selector: String,
    /// The CSS value as written.
    pub original_value: String,
}

/// Configuration for the compositor.
#[derive(Debug, Clone)]
pub struct CompositorConfig {
    /// Maximum number of effects to apply per frame.
    pub max_effects: usize,
    /// Enable GPU acceleration.
    pub gpu_enabled: bool,
}

impl Default for CompositorConfig {
    /// At most 64 effects per frame, GPU enabled.
    fn default() -> (c: Self)
        ensures
            c.max_effects == 64,
            c.gpu_enabled,
    {
        CompositorConfig { max_effects: 64, gpu_enabled: true }
    }
}

/// Result of a compositing operation.
pub struct CompositeResult {
    /// The composited buffer.
    pub buffer: Vec<u8>,
}

/// Buffer-based compositor for applying effects to raw pixel data.
pub struct Compositor {
    config: CompositorConfig,
}

impl Compositor {
    /// The configuration the compositor was made with.
    pub closed spec fn config(&self) -> CompositorConfig {
        self.config
    }

    /// A compositor with the default configuration.
    pub fn new() -> (c: Self)
        ensures
            c.config().max_effects == 64,
            c.config().gpu_enabled,
    {
        Compositor { config: CompositorConfig::default() }
    }

    /// A compositor with the given configuration.
    pub fn with_config(config: CompositorConfig) -> (c: Self)
        ensures
            c.config() == config,
    {
        Compositor { config }
    }

    /// Apply effects to a raw pixel buffer. No pixel pass exists yet: the
    /// result is always a copy of the buffer, unchanged.
    pub fn composite<E>(&mut self, buffer: &[u8], width: u32, height: u32, effects: &[E]) -> (r:
        Result<CompositeResult, anyhow::Error>)
        ensures
            r matches Ok(c) && c.buffer@ == buffer@,
            final(self).config() == old(self).config(),
    {
        Ok(CompositeResult { buffer: slice_to_vec(buffer) })
    }
}

impl Default for Compositor {
    fn default() -> (c: Self)
        ensures
            c.config().max_effects == 64,
            c.config().gpu_enabled,
    {
        Self::new()
    }
}

} // verus!
