//! Mustang: the effect-compositor core of the Exosphere renderer.
//!
//! The library holds the parts of the compositor whose behaviour is decided
//! on integers, booleans and text: configuration, the scene scheduler, the
//! effect classification, the animation state machine, selector matching
//! and the reading of CSS function arguments.

pub mod animation;
pub mod compositor;
pub mod config;
pub mod effect;
pub mod scheduler;
pub mod text;
pub mod time;

pub use animation::{
    Animation, AnimationConfig, AnimationEngine, AnimationState, EasingFunction, PropertyKind,
    TickOutcome,
};
pub use compositor::{
    Compositor, CompositeResult, CompositorConfig, FeatureType, SyntheticFeature,
};
pub use config::{MustangConfig, MustangMode};
pub use effect::{BlurQuality, EffectType};
pub use scheduler::SceneScheduler;
