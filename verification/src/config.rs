//! Compositor configuration.

use vstd::prelude::*;

verus! {

/// Processing mode of the compositor.
#[derive(Debug, Clone, Copy, PartialEq, Eq, Structural)]
pub enum MustangMode {
    /// CPU-only processing (fallback).
    CpuOnly,
    /// GPU-accelerated processing.
    GpuAccelerated,
    /// GPU with CPU fallback.
    Hybrid,
}

impl Default for MustangMode {
    fn default() -> (m: Self)
        ensures
            m == MustangMode::GpuAccelerated,
    {
        MustangMode::GpuAccelerated
    }
}

/// Configuration for the Mustang compositor.
#[derive(Debug, Clone)]
pub struct MustangConfig {
    /// Processing mode.
    pub mode: MustangMode,
    /// Enable effect caching.
    pub enable_caching: bool,
    /// Maximum cache size.
    pub max_cache_size: usize,
    /// Enable debug visualization.
    pub enable_debug: bool,
}

/// The default configuration: GPU mode, caching on with room for 1000
/// entries, debug off.
pub open spec fn default_config() -> MustangConfig {
    MustangConfig {
        mode: MustangMode::GpuAccelerated,
        enable_caching: true,
        max_cache_size: 1000,
        enable_debug: false,
    }
}

impl Default for MustangConfig {
    fn default() -> (c: Self)
        ensures
            c == default_config(),
    {
        MustangConfig {
            mode: MustangMode::GpuAccelerated,
            enable_caching: true,
            max_cache_size: 1000,
            enable_debug: false,
        }
    }
}

impl MustangConfig {
    /// Create the default configuration.
    pub fn new() -> (c: Self)
        ensures
            c == default_config(),
    {
        Self::default()
    }

    /// Set the processing mode; every other field is kept.
    pub fn mode(self, mode: MustangMode) -> (c: Self)
        ensures
            c == (MustangConfig { mode, ..self }),
    {
        let mut s = self;
        s.mode = mode;
        s
    }

    /// Enable or disable caching; every other field is kept.
    pub fn enable_caching(self, enable: bool) -> (c: Self)
        ensures
            c == (MustangConfig { enable_caching: enable, ..self }),
    {
        let mut s = self;
        s.enable_caching = enable;
        s
    }

    /// Set the maximum cache size; every other field is kept.
    pub fn max_cache_size(self, size: usize) -> (c: Self)
        ensures
            c == (MustangConfig { max_cache_size: size, ..self }),
    {
        let mut s = self;
        s.max_cache_size = size;
        s
    }

    /// Enable or disable debug visualization; every other field is kept.
    pub fn enable_debug(self, enable: bool) -> (c: Self)
        ensures
            c == (MustangConfig { enable_debug: enable, ..self }),
    {
        let mut s = self;
        s.enable_debug = enable;
        s
    }

    /// The default configuration in CPU-only mode.
    pub fn cpu_only() -> (c: Self)
        ensures
            c == (MustangConfig { mode: MustangMode::CpuOnly, ..default_config() }),
    {
        Self::default().mode(MustangMode::CpuOnly)
    }

    /// The default configuration in GPU-accelerated mode.
    pub fn gpu_accelerated() -> (c: Self)
        ensures
            c == (MustangConfig { mode: MustangMode::GpuAccelerated, ..default_config() }),
    {
        Self::default().mode(MustangMode::GpuAccelerated)
    }

    /// The default configuration in hybrid mode.
    pub fn hybrid() -> (c: Self)
        ensures
            c == (MustangConfig { mode: MustangMode::Hybrid, ..default_config() }),
    {
        Self::default().mode(MustangMode::Hybrid)
    }
}

} // verus!
