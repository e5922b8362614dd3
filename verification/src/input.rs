//! What the input collector hands over once per tick.

use crate::state::ActionType;
use crate::state::Direction;
use vstd::math::abs;
use vstd::prelude::*;

verus! {

/// Which of the four directional controls are held down.
#[derive(Debug, Clone, Copy, PartialEq, Eq, Structural)]
pub struct DirectionalInput {
    pub up: bool,
    pub down: bool,
    pub left: bool,
    pub right: bool,
}

/// Which of the three tool controls were pressed on this tick.
#[derive(Debug, Clone, Copy, PartialEq, Eq, Structural)]
pub struct ActionKeys {
    pub water: bool,
    pub hoe: bool,
    pub chop: bool,
}

/// The direction an actor wants to move in, in whole steps along each axis:
/// `x` grows to the right and `y` to the top. Only the direction counts, not
/// the length; the engine scales it to unit length before it moves the actor.
#[derive(Debug, Clone, Copy, PartialEq, Eq, Structural)]
pub struct MovementIntent {
    pub x: i32,
    pub y: i32,
}

/// One step along an axis for the control that pushes forward, one step back
/// for the control that pushes backward.
pub open spec fn axis(forward: bool, backward: bool) -> int {
    (if forward { 1int } else { 0int }) - (if backward { 1int } else { 0int })
}

impl DirectionalInput {
    /// The intent that the held controls add up to.
    pub open spec fn intent(self) -> MovementIntent {
        MovementIntent { x: axis(self.right, self.left) as i32, y: axis(self.up, self.down) as i32 }
    }
}

impl ActionKeys {
    /// The action asked for: watering before hoeing before chopping.
    pub open spec fn requested(self) -> Option<ActionType> {
        if self.water {
            Some(ActionType::Watering)
        } else if self.hoe {
            Some(ActionType::Hoeing)
        } else if self.chop {
            Some(ActionType::Chopping)
        } else {
            None
        }
    }

    /// The action asked for, if any: watering before hoeing before chopping.
    pub fn get_requested(&self) -> (a: Option<ActionType>)
        ensures
            a == self.requested(),
    {
        if self.water {
            Some(ActionType::Watering)
        } else if self.hoe {
            Some(ActionType::Hoeing)
        } else if self.chop {
            Some(ActionType::Chopping)
        } else {
            None
        }
    }
}

impl MovementIntent {
    /// Whether the actor wants to stay where it is.
    pub open spec fn is_zero(self) -> bool {
        self.x == 0 && self.y == 0
    }

    /// The facing that the intent calls for: the vertical axis wins only where
    /// it is strictly longer than the horizontal one.
    pub open spec fn heading(self) -> Direction {
        if abs(self.y as int) > abs(self.x as int) {
            if self.y > 0 {
                Direction::Top
            } else {
                Direction::Bottom
            }
        } else if self.x > 0 {
            Direction::Right
        } else {
            Direction::Left
        }
    }

    /// Whether the actor wants to stay where it is.
    pub fn get_is_zero(&self) -> (b: bool)
        ensures
            b == self.is_zero(),
    {
        self.x == 0 && self.y == 0
    }

    /// The facing that the intent calls for.
    pub fn get_heading(&self) -> (d: Direction)
        ensures
            d == self.heading(),
    {
        let x: i64 = self.x as i64;
        let y: i64 = self.y as i64;
        let across: i64 = if x < 0 { -x } else { x };
        let along: i64 = if y < 0 { -y } else { y };
        if along > across {
            if y > 0 {
                Direction::Top
            } else {
                Direction::Bottom
            }
        } else if x > 0 {
            Direction::Right
        } else {
            Direction::Left
        }
    }
}

/// Turns the held directional controls into an intent: each control adds one
/// step along its axis, so opposite controls cancel.
pub fn record_player_directional_input(input: &DirectionalInput) -> (intent: MovementIntent)
    ensures
        intent == input.intent(),
        intent.is_zero() <==> (input.up == input.down && input.left == input.right),
{
    let mut intent = MovementIntent { x: 0, y: 0 };
    if input.up {
        intent.y += 1;
    }
    if input.down {
        intent.y -= 1;
    }
    if input.left {
        intent.x -= 1;
    }
    if input.right {
        intent.x += 1;
    }
    intent
}

} // verus!
