use mustang::compositor::css::{
    blur_argument, brightness_argument, contrast_argument, function_args, rotate_argument,
    saturate_argument,
    scale_arguments,
    split_at_comma, strip_unit, translate_arguments,
};
use mustang::compositor::selector::selector_matches;
use mustang::compositor::effect_type_for;
use mustang::{Compositor, CompositorConfig, EffectType, FeatureType, SyntheticFeature};

#[test]
fn compositor_config_default() {
    let c = CompositorConfig::default();
    assert_eq!(c.max_effects, 64);
    assert!(c.gpu_enabled);
}

#[test]
fn composite_returns_the_buffer_unchanged() {
    let mut c = Compositor::new();
    let buf = [1u8, 2, 3, 4];
    let effects: [u32; 2] = [7, 8];
    let r = c.composite(&buf, 2, 2, &effects).unwrap();
    assert_eq!(r.buffer, vec![1u8, 2, 3, 4]);

    let mut d = Compositor::with_config(CompositorConfig { max_effects: 1, gpu_enabled: false });
    let empty: [u8; 0] = [];
    let r = d.composite::<u32>(&empty, 0, 0, &[]).unwrap();
    assert!(r.buffer.is_empty());
    let _ = Compositor::default();
}

#[test]
fn synthetic_feature_holds_its_parts() {
    let f = SyntheticFeature {
        feature_type: FeatureType::BackdropFilter,
        selector: ".glass".to_string(),
        original_value: "blur(4px)".to_string(),
    };
    assert_eq!(f.feature_type, FeatureType::BackdropFilter);
    assert_ne!(f.feature_type, FeatureType::Clip);
    assert_eq!(f.selector, ".glass");
}

#[test]
fn function_args_takes_first_call_to_first_paren() {
    assert_eq!(function_args("blur(10px)", "blur("), Some("10px".to_string()));
    assert_eq!(
        function_args("x blur(1) blur(2)", "blur("),
        Some("1".to_string())
    );
    assert_eq!(function_args("blur(10px", "blur("), None);
    assert_eq!(function_args("none", "blur("), None);
    assert_eq!(function_args("blur()", "blur("), Some(String::new()));
    assert_eq!(function_args("scale(2) x)", "scale("), Some("2".to_string()));
    assert_eq!(function_args("abc", ""), None);
    assert_eq!(function_args(")x", ""), Some(String::new()));
}

#[test]
fn blur_argument_trims_and_drops_px() {
    assert_eq!(blur_argument("backdrop-filter: blur(10px)"), Some("10".to_string()));
    assert_eq!(blur_argument("blur( 12.5 px )"), Some("12.5".to_string()));
    assert_eq!(blur_argument("blur(3pxpx)"), Some("3".to_string()));
    assert_eq!(blur_argument("blur(7)"), Some("7".to_string()));
    assert_eq!(blur_argument("brightness(2)"), None);
}

#[test]
fn scale_and_brightness_arguments_are_raw() {
    assert_eq!(scale_arguments("scale(1.1)"), Some(("1.1".to_string(), None)));
    assert_eq!(scale_arguments("scale( 1.1 )"), Some((" 1.1 ".to_string(), None)));
    assert_eq!(
        scale_arguments("scale( 2 ,3 )"),
        Some(("2".to_string(), Some("3".to_string())))
    );
    assert_eq!(
        scale_arguments("scale(1.1, 0.5)"),
        Some(("1.1".to_string(), Some("0.5".to_string())))
    );
    assert_eq!(scale_arguments("rotate(3deg)"), None);
    assert_eq!(contrast_argument("brightness(1.2) contrast(0.8)"), Some("0.8".to_string()));
    assert_eq!(contrast_argument("brightness(1.2)"), None);
    assert_eq!(saturate_argument("saturate(0.3) brightness(2)"), Some("0.3".to_string()));
    assert_eq!(saturate_argument("contrast(0.3)"), None);
    assert_eq!(brightness_argument("brightness(1.2)"), Some("1.2".to_string()));
    assert_eq!(brightness_argument("contrast(1.2)"), None);
}

#[test]
fn translate_arguments_split_on_commas() {
    assert_eq!(
        translate_arguments("translate(10px, 20px)"),
        Some(("10".to_string(), Some("20".to_string())))
    );
    assert_eq!(translate_arguments("translate(5px)"), Some(("5".to_string(), None)));
    assert_eq!(
        translate_arguments("translate(1,2,3)"),
        Some(("1".to_string(), Some("2".to_string())))
    );
    assert_eq!(
        translate_arguments("translate(1px ,)"),
        Some(("1".to_string(), Some(String::new())))
    );
    assert_eq!(translate_arguments("scale(2)"), None);
}

#[test]
fn rotate_argument_drops_deg() {
    assert_eq!(rotate_argument("rotate(45deg)"), Some("45".to_string()));
    assert_eq!(rotate_argument("rotate( 90 deg)"), Some("90 ".to_string()));
    assert_eq!(rotate_argument("rotate(1.5)"), Some("1.5".to_string()));
}

#[test]
fn split_and_strip_helpers() {
    assert_eq!(split_at_comma("a,b,c"), ("a".to_string(), Some("b,c".to_string())));
    assert_eq!(split_at_comma("abc"), ("abc".to_string(), None));
    assert_eq!(split_at_comma(","), (String::new(), Some(String::new())));
    assert_eq!(strip_unit("  8px ", "px"), "8");
    assert_eq!(strip_unit("8", ""), "8");
    assert_eq!(strip_unit("\u{3000}4px\t", "px"), "4");
}

#[test]
fn selectors_match_id_class_and_type() {
    let classes = vec!["backdrop".to_string(), "card".to_string()];
    assert!(selector_matches("#test-1", "test-1", &classes, "div"));
    assert!(!selector_matches("#test-2", "test-1", &classes, "div"));
    assert!(selector_matches(".backdrop", "test-1", &classes, "div"));
    assert!(selector_matches(".card", "test-1", &classes, "div"));
    assert!(!selector_matches(".glass", "test-1", &classes, "div"));
    assert!(selector_matches("div", "test-1", &classes, "div"));
    assert!(!selector_matches("span", "test-1", &classes, "div"));
    assert!(!selector_matches("", "test-1", &classes, "div"));
    assert!(selector_matches("", "x", &[], ""));
    assert!(selector_matches("#", "", &[], "div"));
}

#[test]
fn features_become_their_effect_kinds() {
    assert_eq!(effect_type_for(&FeatureType::BackdropFilter), EffectType::BackdropBlur);
    assert_eq!(effect_type_for(&FeatureType::Transform), EffectType::Transform2D);
    assert_eq!(effect_type_for(&FeatureType::ColorAdjust), EffectType::ColorAdjust);
    assert_eq!(effect_type_for(&FeatureType::Clip), EffectType::Clip);
    let f = SyntheticFeature {
        feature_type: FeatureType::Clip,
        selector: String::new(),
        original_value: String::new(),
    };
    let g = f.clone();
    assert_eq!(g.feature_type, FeatureType::Clip);
}
