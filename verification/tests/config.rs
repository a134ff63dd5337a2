use mustang::{MustangConfig, MustangMode};

#[test]
fn default_config_is_gpu_with_caching() {
    let c = MustangConfig::default();
    assert_eq!(c.mode, MustangMode::GpuAccelerated);
    assert!(c.enable_caching);
    assert_eq!(c.max_cache_size, 1000);
    assert!(!c.enable_debug);
    assert_eq!(MustangMode::default(), MustangMode::GpuAccelerated);
}

#[test]
fn builders_set_one_field_each() {
    let c = MustangConfig::new()
        .mode(MustangMode::Hybrid)
        .enable_caching(false)
        .max_cache_size(7)
        .enable_debug(true);
    assert_eq!(c.mode, MustangMode::Hybrid);
    assert!(!c.enable_caching);
    assert_eq!(c.max_cache_size, 7);
    assert!(c.enable_debug);

    let d = MustangConfig::new().max_cache_size(42);
    assert_eq!(d.mode, MustangMode::GpuAccelerated);
    assert!(d.enable_caching);
    assert_eq!(d.max_cache_size, 42);
    assert!(!d.enable_debug);
}

#[test]
fn presets_change_only_the_mode() {
    let cpu = MustangConfig::cpu_only();
    assert_eq!(cpu.mode, MustangMode::CpuOnly);
    assert_eq!(cpu.max_cache_size, 1000);
    assert!(cpu.enable_caching);
    assert_eq!(MustangConfig::gpu_accelerated().mode, MustangMode::GpuAccelerated);
    let h = MustangConfig::hybrid();
    assert_eq!(h.mode, MustangMode::Hybrid);
    assert!(!h.enable_debug);
}
