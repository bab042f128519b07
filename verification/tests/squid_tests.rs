use pumpkin_spawn::squid::{
    next_no_action_time, random_movement_decision, SquidFleeGoal, SquidMovement,
    SquidRandomMovementGoal,
};

#[test]
fn flee_goal_counts_ticks() {
    let mut goal = SquidFleeGoal::default();
    assert_eq!(goal.flee_ticks, 0);
    goal.tick();
    goal.tick();
    assert_eq!(goal.flee_ticks, 2);
    goal.start();
    assert_eq!(goal.flee_ticks, 0);
    assert!(goal.should_run_every_tick());
}

#[test]
fn flee_goal_starts_only_in_water_near_attacker() {
    assert!(SquidFleeGoal::can_start(true, true, Some(true)));
    assert!(!SquidFleeGoal::can_start(false, true, Some(true)));
    assert!(!SquidFleeGoal::can_start(true, false, Some(true)));
    assert!(!SquidFleeGoal::can_start(true, true, Some(false)));
    assert!(!SquidFleeGoal::can_start(true, true, None));
}

#[test]
fn random_movement_decisions() {
    assert_eq!(random_movement_decision(101, true, true, 5), SquidMovement::Stop);
    assert_eq!(random_movement_decision(100, true, true, 5), SquidMovement::Keep);
    assert_eq!(random_movement_decision(0, true, true, 0), SquidMovement::NewDirection);
    assert_eq!(random_movement_decision(0, false, true, 3), SquidMovement::NewDirection);
    assert_eq!(random_movement_decision(0, true, false, 3), SquidMovement::NewDirection);
}

#[test]
fn random_movement_tick() {
    let goal = SquidRandomMovementGoal::new();
    assert!(goal.can_start());
    assert!(!goal.needs_roll(101));
    assert!(goal.needs_roll(100));
    assert_eq!(goal.tick(500, true, true, 0), SquidMovement::Stop);
    assert_eq!(goal.tick(10, false, true, 7), SquidMovement::NewDirection);
    assert_eq!(goal.tick(10, true, true, 0), SquidMovement::NewDirection);
    assert_eq!(goal.tick(10, true, true, 7), SquidMovement::Keep);
}

#[test]
fn no_action_time_wraps() {
    assert_eq!(next_no_action_time(0), 1);
    assert_eq!(next_no_action_time(i32::MAX), i32::MIN);
}
