use overlay_core::space::{
    initial_membership, respawn_sequence, subscribes_to_changes, FollowMode, RespawnStep,
    SpaceAction, SpaceDescriptor, SpaceStrategy, SpaceTracker,
};
use overlay_core::surface::SpaceMembership;

#[test]
fn pin_strategy_asks_for_all_spaces_and_no_subscription() {
    assert_eq!(initial_membership(SpaceStrategy::Pin), SpaceMembership::AllSpaces);
    assert!(!subscribes_to_changes(SpaceStrategy::Pin));
}

#[test]
fn follow_strategy_pins_to_one_space_and_subscribes() {
    for mode in [FollowMode::MoveSurface, FollowMode::Respawn] {
        assert_eq!(
            initial_membership(SpaceStrategy::Follow(mode)),
            SpaceMembership::Pinned
        );
        assert!(subscribes_to_changes(SpaceStrategy::Follow(mode)));
    }
}

#[test]
fn one_notification_moves_the_surface_exactly_once() {
    let mut tracker = SpaceTracker::new(FollowMode::MoveSurface);
    let desktop = SpaceDescriptor { raw: 42 };
    let action = tracker.on_space_change(desktop);
    assert_eq!(action, SpaceAction::MoveToSpace(desktop));
}

#[test]
fn one_notification_respawns_exactly_once() {
    let mut tracker = SpaceTracker::new(FollowMode::Respawn);
    let action = tracker.on_space_change(SpaceDescriptor { raw: 1 });
    assert_eq!(action, SpaceAction::RespawnProcess);
}

#[test]
fn actions_track_notifications_one_for_one() {
    let mut tracker = SpaceTracker::new(FollowMode::MoveSurface);
    let mut actions: usize = 0;
    for i in 0..5u64 {
        let _ = tracker.on_space_change(SpaceDescriptor { raw: i });
        actions += 1;
    }
    assert_eq!(actions, 5);
}

#[test]
fn respawn_signals_the_supervisor_before_exiting() {
    let steps = respawn_sequence();
    assert_eq!(
        steps,
        vec![
            RespawnStep::SignalSupervisor,
            RespawnStep::SpawnReplacement,
            RespawnStep::ExitCurrent,
        ]
    );
}

#[test]
fn descriptors_compare_by_equality_only() {
    let a = SpaceDescriptor { raw: 3 };
    let b = SpaceDescriptor { raw: 3 };
    let c = SpaceDescriptor { raw: 4 };
    assert_eq!(a, b);
    assert_ne!(a, c);
}
