use mustang::animation::after_delay;
use mustang::{Animation, AnimationConfig, AnimationEngine, AnimationState, EasingFunction, TickOutcome};
use mustang::time::older_than;
use std::time::{Duration, Instant};

#[test]
fn test_animation_config_default() {
    let config = AnimationConfig::default();
    assert_eq!(config.duration, Duration::from_millis(300));
    assert_eq!(config.delay, Duration::ZERO);
    assert_eq!(config.iterations, Some(1));
}

#[test]
fn animation_config_default_other_fields() {
    let config = AnimationConfig::default();
    assert_eq!(config.selector, "");
    assert_eq!(config.easing, EasingFunction::Ease);
    assert!(!config.alternate);
    assert!(config.fill_forwards);
}

#[test]
fn test_animation_state_transitions() {
    let config = AnimationConfig::default();
    let properties = vec![(0.0f32, 10.0f32)];
    let mut anim = Animation::new(config, properties);

    assert_eq!(anim.state, AnimationState::Pending);
    anim.start();
    assert_eq!(anim.state, AnimationState::Running);
    anim.cancel();
    assert_eq!(anim.state, AnimationState::Cancelled);
}

#[test]
fn test_animation_engine() {
    let mut engine = AnimationEngine::new();
    let config = AnimationConfig::default();
    let properties = vec![(0.0f32, 10.0f32)];
    let anim = Animation::new(config, properties);

    let id = engine.add_animation(anim);
    assert_eq!(engine.active_count(), 0); // Not started yet

    engine.start(id);
    assert_eq!(engine.active_count(), 1);
}

#[test]
fn test_named_animation() {
    let mut engine = AnimationEngine::new();
    let config = AnimationConfig {
        selector: ".test".to_string(),
        ..Default::default()
    };
    let properties = vec![(1.0f32, 1.5f32)];
    let anim = Animation::new(config, properties);

    engine.add_named_animation("test-anim", anim);
    assert!(engine.start_named("test-anim"));
    assert!(!engine.start_named("nonexistent"));
}

fn anim(iterations: Option<u32>, alternate: bool, fill_forwards: bool) -> Animation<u8> {
    let config = AnimationConfig { iterations, alternate, fill_forwards, ..Default::default() };
    Animation::new(config, vec![1u8])
}

#[test]
fn new_animation_is_pending_and_unstarted() {
    let a = anim(Some(1), false, true);
    assert_eq!(a.state, AnimationState::Pending);
    assert!(a.started_at.is_none());
    assert_eq!(a.current_iteration, 0);
    assert!(!a.is_complete());
    assert_eq!(a.properties, vec![1u8]);
}

#[test]
fn start_sets_a_start_time() {
    let mut a = anim(Some(1), false, true);
    a.start();
    assert!(a.started_at.is_some());
    assert!(!a.is_complete());
}

#[test]
fn finished_states_are_complete() {
    let mut a = anim(Some(1), false, true);
    a.cancel();
    assert!(a.is_complete());
    let mut b = anim(Some(1), false, true);
    b.state = AnimationState::Completed;
    assert!(b.is_complete());
}

#[test]
fn after_delay_subtracts_the_delay() {
    assert_eq!(after_delay(Duration::from_millis(50), Duration::from_millis(100)), None);
    assert_eq!(
        after_delay(Duration::from_millis(150), Duration::from_millis(100)),
        Some(Duration::from_millis(50))
    );
    assert_eq!(after_delay(Duration::from_millis(100), Duration::from_millis(100)), Some(Duration::ZERO));
    assert_eq!(after_delay(Duration::from_nanos(7), Duration::ZERO), Some(Duration::from_nanos(7)));
}

#[test]
fn frame_elapsed_needs_a_running_started_animation() {
    let now = Instant::now();
    let mut a = anim(Some(1), false, true);
    assert_eq!(a.frame_elapsed(now), None);
    a.start();
    let later = Instant::now() + Duration::from_millis(5);
    assert!(a.frame_elapsed(later).is_some());
    a.cancel();
    assert_eq!(a.frame_elapsed(later), None);
}

#[test]
fn frame_elapsed_waits_for_the_delay() {
    let config = AnimationConfig { delay: Duration::from_secs(3600), ..Default::default() };
    let mut a = Animation::new(config, vec![0u8]);
    a.start();
    assert_eq!(a.frame_elapsed(Instant::now()), None);
}

#[test]
fn single_iteration_completes_at_its_end() {
    let now = Instant::now();
    let mut a = anim(Some(1), false, true);
    a.start();
    assert_eq!(a.finish_frame(false, now), TickOutcome::Progress { reversed: false });
    assert_eq!(a.state, AnimationState::Running);
    assert_eq!(a.finish_frame(true, now), TickOutcome::FinalState);
    assert_eq!(a.state, AnimationState::Completed);
    assert_eq!(a.current_iteration, 1);
}

#[test]
fn completion_without_fill_shows_nothing() {
    let now = Instant::now();
    let mut a = anim(Some(2), false, false);
    a.start();
    assert_eq!(a.finish_frame(true, now), TickOutcome::Progress { reversed: false });
    assert_eq!(a.state, AnimationState::Running);
    assert_eq!(a.started_at, Some(now));
    assert_eq!(a.finish_frame(true, now), TickOutcome::Nothing);
    assert_eq!(a.state, AnimationState::Completed);
}

#[test]
fn alternating_animation_reverses_odd_iterations() {
    let now = Instant::now();
    let mut a = anim(None, true, true);
    a.start();
    assert_eq!(a.finish_frame(false, now), TickOutcome::Progress { reversed: false });
    assert_eq!(a.finish_frame(true, now), TickOutcome::Progress { reversed: true });
    assert_eq!(a.finish_frame(false, now), TickOutcome::Progress { reversed: true });
    assert_eq!(a.finish_frame(true, now), TickOutcome::Progress { reversed: false });
    assert_eq!(a.state, AnimationState::Running);
    assert_eq!(a.current_iteration, 2);
}

#[test]
fn infinite_animation_never_completes() {
    let now = Instant::now();
    let mut a = anim(None, false, true);
    a.start();
    for _ in 0..50 {
        assert_eq!(a.finish_frame(true, now), TickOutcome::Progress { reversed: false });
    }
    assert_eq!(a.state, AnimationState::Running);
    assert_eq!(a.current_iteration, 50);
}

#[test]
fn engine_indices_and_lookups() {
    let mut engine: AnimationEngine<u8> = AnimationEngine::default();
    assert_eq!(engine.animation_count(), 0);
    assert_eq!(engine.add_animation(anim(Some(1), false, true)), 0);
    assert_eq!(engine.add_named_animation("b", anim(Some(2), false, true)), 1);
    assert_eq!(engine.animation_count(), 2);
    assert_eq!(engine.get_animation(1).map(|a| a.config.iterations), Some(Some(2)));
    assert!(engine.get_animation(2).is_none());
    assert_eq!(engine.get_named_animation("b").map(|a| a.config.iterations), Some(Some(2)));
    assert!(engine.get_named_animation("c").is_none());
    assert!(!engine.start(5));
    assert!(!engine.cancel(5));
}

#[test]
fn engine_name_rebinding_takes_the_latest() {
    let mut engine: AnimationEngine<u8> = AnimationEngine::new();
    engine.add_named_animation("x", anim(Some(1), false, true));
    engine.add_named_animation("x", anim(Some(3), false, true));
    assert_eq!(engine.get_named_animation("x").map(|a| a.config.iterations), Some(Some(3)));
    assert!(engine.start_named("x"));
    assert_eq!(engine.get_animation(0).map(|a| a.state), Some(AnimationState::Pending));
    assert_eq!(engine.get_animation(1).map(|a| a.state), Some(AnimationState::Running));
}

#[test]
fn engine_cancel_all_then_cleanup_empties() {
    let mut engine: AnimationEngine<u8> = AnimationEngine::new();
    for _ in 0..3 {
        engine.add_animation(anim(Some(1), false, true));
    }
    engine.start(0);
    engine.start(2);
    assert_eq!(engine.active_count(), 2);
    engine.cancel_all();
    assert_eq!(engine.active_count(), 0);
    assert_eq!(engine.animation_count(), 3);
    engine.cleanup();
    assert_eq!(engine.animation_count(), 0);
}

#[test]
fn engine_cleanup_keeps_unfinished_in_order() {
    let mut engine: AnimationEngine<u8> = AnimationEngine::new();
    engine.add_animation(anim(Some(1), false, true));
    engine.add_animation(anim(Some(2), false, true));
    engine.add_animation(anim(Some(3), false, true));
    engine.add_animation(anim(Some(4), false, true));
    engine.start(1);
    assert!(engine.cancel(0));
    engine.cancel(2);
    let before = engine.active_count();
    engine.cleanup();
    assert_eq!(engine.active_count(), before);
    assert_eq!(engine.animation_count(), 2);
    assert_eq!(engine.get_animation(0).map(|a| a.config.iterations), Some(Some(2)));
    assert_eq!(engine.get_animation(1).map(|a| a.config.iterations), Some(Some(4)));
    engine.cleanup();
    assert_eq!(engine.animation_count(), 2);
}

#[test]
fn names_survive_cleanup_unchanged() {
    let mut engine: AnimationEngine<u8> = AnimationEngine::new();
    engine.add_animation(anim(Some(1), false, true));
    engine.add_named_animation("late", anim(Some(9), false, true));
    engine.cancel(0);
    engine.cleanup();
    // The name still denotes index 1, which no longer exists.
    assert!(!engine.start_named("late"));
    assert!(engine.get_named_animation("late").is_none());
}

#[test]
fn start_all_pending_starts_only_pending() {
    let mut engine: AnimationEngine<u8> = AnimationEngine::new();
    engine.add_animation(anim(Some(1), false, true));
    engine.add_animation(anim(Some(1), false, true));
    engine.add_animation(anim(Some(1), false, true));
    engine.cancel(1);
    engine.start_all_pending();
    assert_eq!(engine.active_count(), 2);
    assert_eq!(engine.get_animation(1).map(|a| a.state), Some(AnimationState::Cancelled));
    assert!(engine.get_animation(0).map(|a| a.started_at.is_some()).unwrap());
}

#[test]
fn frame_elapsed_is_time_past_the_delay() {
    let t0 = Instant::now();
    let config = AnimationConfig { delay: Duration::from_millis(100), ..Default::default() };
    let mut a = Animation::new(config, vec![0u8]);
    a.state = AnimationState::Running;
    a.started_at = Some(t0);
    assert_eq!(a.frame_elapsed(t0 + Duration::from_millis(150)), Some(Duration::from_millis(50)));
    assert_eq!(a.frame_elapsed(t0 + Duration::from_millis(100)), Some(Duration::ZERO));
    assert_eq!(a.frame_elapsed(t0 + Duration::from_millis(99)), None);
    assert_eq!(a.frame_elapsed(t0), None);
}

#[test]
fn older_than_compares_ages() {
    let t0 = Instant::now();
    let later = t0 + Duration::from_millis(10);
    assert!(older_than(later, t0, Duration::from_millis(5)));
    assert!(!older_than(later, t0, Duration::from_millis(10)));
    assert!(!older_than(t0, later, Duration::ZERO));
}
