use mustang::EasingFunction;

#[test]
fn test_from_str() {
    assert_eq!(
        EasingFunction::from_str("linear"),
        Some(EasingFunction::Linear)
    );
    assert_eq!(EasingFunction::from_str("ease"), Some(EasingFunction::Ease));
    assert_eq!(
        EasingFunction::from_str("ease-in"),
        Some(EasingFunction::EaseIn)
    );
    assert_eq!(
        EasingFunction::from_str("easeOut"),
        Some(EasingFunction::EaseOut)
    );
    assert_eq!(
        EasingFunction::from_str("cubic-in"),
        Some(EasingFunction::CubicIn)
    );
    assert_eq!(
        EasingFunction::from_str("bounce-out"),
        Some(EasingFunction::BounceOut)
    );
    assert_eq!(EasingFunction::from_str("unknown"), None);
}

#[test]
fn from_str_ignores_letter_case() {
    assert_eq!(EasingFunction::from_str("EASE-IN-OUT"), Some(EasingFunction::EaseInOut));
    assert_eq!(EasingFunction::from_str("ElasticInOut"), Some(EasingFunction::ElasticInOut));
    assert_eq!(EasingFunction::from_str("Linear"), Some(EasingFunction::Linear));
}

#[test]
fn both_spellings_name_every_family_curve() {
    let cases = [
        ("quad-in", "quadin", EasingFunction::QuadIn),
        ("quart-out", "quartout", EasingFunction::QuartOut),
        ("quint-in-out", "quintinout", EasingFunction::QuintInOut),
        ("sine-in", "sinein", EasingFunction::SineIn),
        ("expo-out", "expoout", EasingFunction::ExpoOut),
        ("circ-in-out", "circinout", EasingFunction::CircInOut),
        ("back-in", "backin", EasingFunction::BackIn),
        ("bounce-in-out", "bounceinout", EasingFunction::BounceInOut),
        ("cubic-out", "cubicout", EasingFunction::CubicOut),
        ("elastic-out", "elasticout", EasingFunction::ElasticOut),
    ];
    for (a, b, e) in cases {
        assert_eq!(EasingFunction::from_str(a), Some(e));
        assert_eq!(EasingFunction::from_str(b), Some(e));
        assert_eq!(EasingFunction::from_lowercase_name(a), Some(e));
    }
}

#[test]
fn lowercase_name_is_taken_as_written() {
    assert_eq!(EasingFunction::from_lowercase_name("ease-out"), Some(EasingFunction::EaseOut));
    assert_eq!(EasingFunction::from_lowercase_name("Ease-Out"), None);
    assert_eq!(EasingFunction::from_lowercase_name(""), None);
    assert_eq!(EasingFunction::from_str(" linear"), None);
    assert_eq!(EasingFunction::from_str("linear-in"), None);
}

#[test]
fn default_easing_is_ease() {
    assert_eq!(EasingFunction::default(), EasingFunction::Ease);
}
