use rmf_sandbox::actor::{
    choose_animation, ActorInitTracker, AnimationChoice, AnimationLibrary,
};

#[test]
fn clips_are_registered_once_per_actor_name() {
    let mut lib = AnimationLibrary::new();
    assert!(lib.register_if_absent("MaleVisitorOnPhone".to_string(), 1, 2));
    assert!(!lib.register_if_absent("MaleVisitorOnPhone".to_string(), 3, 4));
    assert_eq!(lib.entries.len(), 1);
    assert_eq!(lib.entries[0].idle, 1);
    assert_eq!(lib.entries[0].walking, 2);
    assert!(lib.contains(&"MaleVisitorOnPhone".to_string()));
    assert!(!lib.contains(&"FemaleVisitor".to_string()));
}

#[test]
fn different_actor_names_get_their_own_entries() {
    let mut lib = AnimationLibrary::new();
    assert!(lib.register_if_absent("A".to_string(), 1, 2));
    assert!(lib.register_if_absent("B".to_string(), 3, 4));
    assert_eq!(lib.entries.len(), 2);
    assert_eq!(lib.entries[1].actor_name, "B");
    assert_eq!(lib.entries[1].walking, 4);
}

#[test]
fn fast_actors_idle_and_slow_actors_walk() {
    assert_eq!(choose_animation(501), AnimationChoice::Idle);
    assert_eq!(choose_animation(1000), AnimationChoice::Idle);
    assert_eq!(choose_animation(500), AnimationChoice::Walking);
    assert_eq!(choose_animation(0), AnimationChoice::Walking);
}

#[test]
fn each_entity_is_initialized_once() {
    let mut t = ActorInitTracker::new(2);
    assert!(t.needs_init(10));
    t.record_init(10);
    assert!(!t.needs_init(10));
    assert!(t.needs_init(11));
}

#[test]
fn the_tracker_goes_quiet_at_the_expected_count() {
    let mut t = ActorInitTracker::new(2);
    t.refresh_done();
    assert!(!t.done);
    t.record_init(10);
    t.refresh_done();
    assert!(!t.done);
    t.record_init(11);
    t.refresh_done();
    assert!(t.done);
    assert!(!t.needs_init(12));
}
