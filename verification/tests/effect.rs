use mustang::animation::effect_type_of;
use mustang::{BlurQuality, EffectType, PropertyKind};

#[test]
fn scene_native_kinds() {
    for t in [EffectType::BackdropBlur, EffectType::Transform2D, EffectType::Clip, EffectType::DropShadow] {
        assert!(t.is_native(), "{:?} should be native", t);
        assert!(!t.requires_gpu_compute(), "{:?} should not need compute", t);
    }
}

#[test]
fn gpu_compute_kinds() {
    for t in [EffectType::ColorAdjust, EffectType::CanonicalFilter] {
        assert!(!t.is_native(), "{:?} should not be native", t);
        assert!(t.requires_gpu_compute(), "{:?} should need compute", t);
    }
}

#[test]
fn blur_quality_default_is_high() {
    assert_eq!(BlurQuality::default(), BlurQuality::High);
    assert_ne!(BlurQuality::Low, BlurQuality::Ultra);
}

#[test]
fn property_kinds_drive_their_effects() {
    assert_eq!(effect_type_of(PropertyKind::Blur), EffectType::BackdropBlur);
    assert_eq!(effect_type_of(PropertyKind::Scale), EffectType::Transform2D);
    assert_eq!(effect_type_of(PropertyKind::Translate), EffectType::Transform2D);
    assert_eq!(effect_type_of(PropertyKind::Rotate), EffectType::Transform2D);
    assert_eq!(effect_type_of(PropertyKind::Brightness), EffectType::ColorAdjust);
    for k in [PropertyKind::Blur, PropertyKind::Scale, PropertyKind::Translate, PropertyKind::Rotate] {
        assert!(effect_type_of(k).is_native());
    }
    assert!(effect_type_of(PropertyKind::Brightness).requires_gpu_compute());
    for k in [PropertyKind::Scale, PropertyKind::Translate, PropertyKind::Rotate, PropertyKind::Brightness] {
        assert_ne!(effect_type_of(k), EffectType::BackdropBlur);
    }
}

#[test]
fn layer_scope_kinds() {
    for t in [EffectType::Transform2D, EffectType::Clip] {
        assert!(t.is_layer_scope());
        assert!(!t.is_one_shot());
    }
    for t in [EffectType::BackdropBlur, EffectType::ColorAdjust, EffectType::DropShadow, EffectType::CanonicalFilter] {
        assert!(!t.is_layer_scope());
        assert!(t.is_one_shot());
    }
}
