//! The decisions of a squid's goals: when it flees from its attacker, and
//! when it stops, keeps or changes its swimming direction.

use vstd::prelude::*;

verus! {

/// Idle ticks after which a squid stops swimming.
pub const SQUID_IDLE_LIMIT: i32 = 100;

/// Flees from the last entity that hurt the squid, while in water and within
/// 10 blocks of the attacker.
#[derive(Clone, Copy, Debug, PartialEq, Eq, Structural)]
pub struct SquidFleeGoal {
    /// Ticks since the squid started fleeing.
    pub flee_ticks: i32,
}

impl Default for SquidFleeGoal {
    fn default() -> (goal: Self)
        ensures
            goal.flee_ticks == 0,
    {
        Self::new()
    }
}

impl SquidFleeGoal {
    pub fn new() -> (goal: Self)
        ensures
            goal.flee_ticks == 0,
    {
        SquidFleeGoal { flee_ticks: 0 }
    }

    /// Whether fleeing starts: only in water, while the squid is alive, and
    /// when it has an attacker less than 10 blocks away (`attacker_nearby` is
    /// `None` when nobody hurt it).
    pub fn can_start(touching_water: bool, squid_alive: bool, attacker_nearby: Option<bool>) -> (starts: bool)
        ensures
            starts == (touching_water && squid_alive && attacker_nearby == Some(true)),
    {
        if !touching_water {
            return false;
        }
        if !squid_alive {
            return false;
        }
        match attacker_nearby {
            Some(nearby) => nearby,
            None => false,
        }
    }

    /// Fleeing restarts its tick count.
    pub fn start(&mut self)
        ensures
            final(self).flee_ticks == 0,
    {
        self.flee_ticks = 0;
    }

    /// The goal is ticked every game tick.
    pub fn should_run_every_tick(&self) -> (every_tick: bool)
        ensures
            every_tick,
    {
        true
    }

    /// Counts one more tick of fleeing.
    pub fn tick(&mut self)
        requires
            old(self).flee_ticks < i32::MAX,
        ensures
            final(self).flee_ticks == old(self).flee_ticks + 1,
    {
        self.flee_ticks = self.flee_ticks + 1;
    }
}

/// What a squid's random movement does in a tick.
#[derive(Clone, Copy, Debug, PartialEq, Eq, Structural)]
pub enum SquidMovement {
    /// Swimming stops: the movement vector becomes zero.
    Stop,
    /// A new random swimming direction is picked.
    NewDirection,
    /// The current direction is kept.
    Keep,
}

/// The random movement of a squid for its idle time, whether it was in
/// water, whether it has a movement vector, and the number rolled: it stops
/// after more than 100 idle ticks, and otherwise picks a new direction when
/// the roll is 0, out of water, or without a direction.
pub open spec fn movement_for(no_action_time: int, was_touching_water: bool, has_movement: bool, roll: int) -> SquidMovement {
    if no_action_time > SQUID_IDLE_LIMIT {
        SquidMovement::Stop
    } else if roll == 0 || !was_touching_water || !has_movement {
        SquidMovement::NewDirection
    } else {
        SquidMovement::Keep
    }
}

/// A squid idle for more than 100 ticks stops swimming, whatever else holds:
/// in water or not, with or without a movement vector, whatever was rolled.
/// A squid idle for at most 100 ticks never stops: it picks a new direction
/// exactly when the roll is 0, it was out of water or it had no direction,
/// and keeps its direction otherwise.
pub proof fn idle_squid_stops(no_action_time: int, was_touching_water: bool, has_movement: bool, roll: int)
    ensures
        no_action_time > 100 ==> movement_for(no_action_time, was_touching_water, has_movement, roll)
            == SquidMovement::Stop,
        no_action_time <= 100 ==> movement_for(no_action_time, was_touching_water, has_movement, roll)
            != SquidMovement::Stop,
        no_action_time <= 100 && (roll == 0 || !was_touching_water || !has_movement) ==> movement_for(
            no_action_time,
            was_touching_water,
            has_movement,
            roll,
        ) == SquidMovement::NewDirection,
        no_action_time <= 100 && roll != 0 && was_touching_water && has_movement ==> movement_for(
            no_action_time,
            was_touching_water,
            has_movement,
            roll,
        ) == SquidMovement::Keep,
{
}

/// The random movement of a squid given the number rolled.
pub fn random_movement_decision(no_action_time: i32, was_touching_water: bool, has_movement: bool, roll: i32) -> (m: SquidMovement)
    ensures
        m == movement_for(no_action_time as int, was_touching_water, has_movement, roll as int),
        no_action_time > 100 ==> m == SquidMovement::Stop,
        no_action_time <= 100 ==> m != SquidMovement::Stop,
        no_action_time <= 100 ==> (m == SquidMovement::NewDirection <==> (roll == 0 || !was_touching_water
            || !has_movement)),
{
    if no_action_time > SQUID_IDLE_LIMIT {
        SquidMovement::Stop
    } else if roll == 0 || !was_touching_water || !has_movement {
        SquidMovement::NewDirection
    } else {
        SquidMovement::Keep
    }
}

/// Picks random swimming directions for a squid from time to time; always
/// active.
#[derive(Clone, Copy, Debug, PartialEq, Eq, Structural)]
pub struct SquidRandomMovementGoal;

impl Default for SquidRandomMovementGoal {
    fn default() -> (goal: Self) {
        Self::new()
    }
}

impl SquidRandomMovementGoal {
    pub fn new() -> (goal: Self) {
        SquidRandomMovementGoal
    }

    /// The goal can always start.
    pub fn can_start(&self) -> (starts: bool)
        ensures
            starts,
    {
        true
    }

    /// Whether a tick rolls the squid's own random generator: only while the
    /// squid has not idled too long.
    pub fn needs_roll(&self, no_action_time: i32) -> (rolls: bool)
        ensures
            rolls == (no_action_time <= SQUID_IDLE_LIMIT),
    {
        no_action_time <= SQUID_IDLE_LIMIT
    }

    /// The random movement of a squid in one tick, given the number `roll`
    /// drawn from the squid's own random generator when `needs_roll` says so
    /// (ignored otherwise): a new direction comes when the roll is 0.
    pub fn tick(&self, no_action_time: i32, was_touching_water: bool, has_movement: bool, roll: i32) -> (m: SquidMovement)
        ensures
            m == movement_for(no_action_time as int, was_touching_water, has_movement, roll as int),
            no_action_time > 100 ==> m == SquidMovement::Stop,
    {
        random_movement_decision(no_action_time, was_touching_water, has_movement, roll)
    }
}

/// Counts one more tick without action; the counter wraps around as the
/// atomic counter it stands for does.
pub fn next_no_action_time(no_action_time: i32) -> (next: i32)
    ensures
        next as int == (if no_action_time == i32::MAX { i32::MIN as int } else { no_action_time + 1 }),
{
    no_action_time.wrapping_add(1)
}

} // verus!
