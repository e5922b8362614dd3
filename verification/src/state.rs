//! The closed set of animation states and the tables that belong to it.

use vstd::prelude::*;

verus! {

/// The way an actor faces on the map.
#[derive(Debug, Clone, Copy, PartialEq, Eq, Structural)]
pub enum Direction {
    Top,
    Bottom,
    Left,
    Right,
}

/// A tool action that an actor performs while standing still.
#[derive(Debug, Clone, Copy, PartialEq, Eq, Structural)]
pub enum ActionType {
    Hoeing,
    Watering,
    Chopping,
}

/// What an actor is doing, whichever way it faces.
#[derive(Debug, Clone, Copy, PartialEq, Eq, Structural)]
pub enum Activity {
    Idling,
    Walking,
    Acting(ActionType),
}

/// One of the twenty combinations of activity and facing.
#[derive(Debug, Clone, Copy, PartialEq, Eq, Structural)]
pub enum PlayerAnimationState {
    IdlingT,
    IdlingB,
    IdlingL,
    IdlingR,
    WalkingT,
    WalkingB,
    WalkingL,
    WalkingR,
    HoeingT,
    HoeingB,
    HoeingL,
    HoeingR,
    WateringT,
    WateringB,
    WateringL,
    WateringR,
    ChoppingT,
    ChoppingB,
    ChoppingL,
    ChoppingR,
}

/// A sprite pivot shift, in hundredths of the sprite's size.
#[derive(Debug, Clone, Copy, PartialEq, Eq, Structural)]
pub struct AnchorPoint {
    pub x: i32,
    pub y: i32,
}

/// Frames in every animation cycle.
pub const FRAME_COUNT: usize = 2;

/// Milliseconds each idle frame is shown.
pub const IDLE_INTERVAL_MILLIS: u64 = 500;

/// Milliseconds each walking frame is shown.
pub const WALKING_INTERVAL_MILLIS: u64 = 150;

/// Milliseconds each frame of a tool action is shown.
pub const ACTION_INTERVAL_MILLIS: u64 = 300;

/// Sprites in one row of the atlas.
pub const ATLAS_ROW_LENGTH: usize = 16;

/// The state that combines an activity with a facing.
pub open spec fn state_of(activity: Activity, direction: Direction) -> PlayerAnimationState {
    match (activity, direction) {
        (Activity::Idling, Direction::Top) => PlayerAnimationState::IdlingT,
        (Activity::Idling, Direction::Bottom) => PlayerAnimationState::IdlingB,
        (Activity::Idling, Direction::Left) => PlayerAnimationState::IdlingL,
        (Activity::Idling, Direction::Right) => PlayerAnimationState::IdlingR,
        (Activity::Walking, Direction::Top) => PlayerAnimationState::WalkingT,
        (Activity::Walking, Direction::Bottom) => PlayerAnimationState::WalkingB,
        (Activity::Walking, Direction::Left) => PlayerAnimationState::WalkingL,
        (Activity::Walking, Direction::Right) => PlayerAnimationState::WalkingR,
        (Activity::Acting(ActionType::Hoeing), Direction::Top) => PlayerAnimationState::HoeingT,
        (Activity::Acting(ActionType::Hoeing), Direction::Bottom) => PlayerAnimationState::HoeingB,
        (Activity::Acting(ActionType::Hoeing), Direction::Left) => PlayerAnimationState::HoeingL,
        (Activity::Acting(ActionType::Hoeing), Direction::Right) => PlayerAnimationState::HoeingR,
        (Activity::Acting(ActionType::Watering), Direction::Top) => PlayerAnimationState::WateringT,
        (Activity::Acting(ActionType::Watering), Direction::Bottom) => PlayerAnimationState::WateringB,
        (Activity::Acting(ActionType::Watering), Direction::Left) => PlayerAnimationState::WateringL,
        (Activity::Acting(ActionType::Watering), Direction::Right) => PlayerAnimationState::WateringR,
        (Activity::Acting(ActionType::Chopping), Direction::Top) => PlayerAnimationState::ChoppingT,
        (Activity::Acting(ActionType::Chopping), Direction::Bottom) => PlayerAnimationState::ChoppingB,
        (Activity::Acting(ActionType::Chopping), Direction::Left) => PlayerAnimationState::ChoppingL,
        (Activity::Acting(ActionType::Chopping), Direction::Right) => PlayerAnimationState::ChoppingR,
    }
}

/// The atlas row that holds the sprites of a facing.
pub open spec fn atlas_row(direction: Direction) -> nat {
    match direction {
        Direction::Bottom => 0,
        Direction::Top => 1,
        Direction::Left => 2,
        Direction::Right => 3,
    }
}

/// The place of an activity's frame pair within an atlas row.
pub open spec fn atlas_slot(activity: Activity) -> nat {
    match activity {
        Activity::Idling => 0,
        Activity::Walking => 1,
        Activity::Acting(ActionType::Hoeing) => 2,
        Activity::Acting(ActionType::Chopping) => 3,
        Activity::Acting(ActionType::Watering) => 4,
    }
}

/// Nanoseconds each frame of an activity is shown.
pub open spec fn activity_interval_nanos(activity: Activity) -> nat {
    match activity {
        Activity::Idling => (IDLE_INTERVAL_MILLIS * 1_000_000) as nat,
        Activity::Walking => (WALKING_INTERVAL_MILLIS * 1_000_000) as nat,
        Activity::Acting(_) => (ACTION_INTERVAL_MILLIS * 1_000_000) as nat,
    }
}

/// The horizontal pivot shift of an activity, facing and frame, in hundredths.
/// Only tool actions shift the pivot, and only frame 1 differs from the rest.
pub open spec fn anchor_shift(activity: Activity, direction: Direction, frame: nat) -> int {
    let second = frame == 1;
    match (activity, direction) {
        (Activity::Acting(ActionType::Hoeing), Direction::Left) => if second { 20 } else { 0 },
        (Activity::Acting(ActionType::Hoeing), Direction::Right) => if second { -20 } else { 0 },
        (Activity::Acting(ActionType::Watering), Direction::Right) => if second { -20 } else { -25 },
        (Activity::Acting(ActionType::Watering), Direction::Left) => if second { 30 } else { 25 },
        (Activity::Acting(ActionType::Chopping), Direction::Right) => if second { -20 } else { 20 },
        (Activity::Acting(ActionType::Chopping), Direction::Left) => if second { 20 } else { -20 },
        (Activity::Acting(ActionType::Chopping), Direction::Top) => if second { -10 } else { 0 },
        (Activity::Acting(ActionType::Chopping), Direction::Bottom) => if second { 0 } else { 10 },
        _ => 0,
    }
}

impl PlayerAnimationState {
    /// The facing of this state.
    pub open spec fn direction(self) -> Direction {
        match self {
            PlayerAnimationState::IdlingT
            | PlayerAnimationState::WalkingT
            | PlayerAnimationState::HoeingT
            | PlayerAnimationState::WateringT
            | PlayerAnimationState::ChoppingT => Direction::Top,
            PlayerAnimationState::IdlingB
            | PlayerAnimationState::WalkingB
            | PlayerAnimationState::HoeingB
            | PlayerAnimationState::WateringB
            | PlayerAnimationState::ChoppingB => Direction::Bottom,
            PlayerAnimationState::IdlingL
            | PlayerAnimationState::WalkingL
            | PlayerAnimationState::HoeingL
            | PlayerAnimationState::WateringL
            | PlayerAnimationState::ChoppingL => Direction::Left,
            PlayerAnimationState::IdlingR
            | PlayerAnimationState::WalkingR
            | PlayerAnimationState::HoeingR
            | PlayerAnimationState::WateringR
            | PlayerAnimationState::ChoppingR => Direction::Right,
        }
    }

    /// The activity of this state.
    pub open spec fn activity(self) -> Activity {
        match self {
            PlayerAnimationState::IdlingT
            | PlayerAnimationState::IdlingB
            | PlayerAnimationState::IdlingL
            | PlayerAnimationState::IdlingR => Activity::Idling,
            PlayerAnimationState::WalkingT
            | PlayerAnimationState::WalkingB
            | PlayerAnimationState::WalkingL
            | PlayerAnimationState::WalkingR => Activity::Walking,
            PlayerAnimationState::HoeingT
            | PlayerAnimationState::HoeingB
            | PlayerAnimationState::HoeingL
            | PlayerAnimationState::HoeingR => Activity::Acting(ActionType::Hoeing),
            PlayerAnimationState::WateringT
            | PlayerAnimationState::WateringB
            | PlayerAnimationState::WateringL
            | PlayerAnimationState::WateringR => Activity::Acting(ActionType::Watering),
            PlayerAnimationState::ChoppingT
            | PlayerAnimationState::ChoppingB
            | PlayerAnimationState::ChoppingL
            | PlayerAnimationState::ChoppingR => Activity::Acting(ActionType::Chopping),
        }
    }

    /// Nanoseconds each frame of this state is shown.
    pub open spec fn interval_nanos(self) -> nat {
        activity_interval_nanos(self.activity())
    }

    /// The atlas index of frame 0 of this state.
    pub open spec fn atlas_base(self) -> nat {
        (ATLAS_ROW_LENGTH * atlas_row(self.direction()) + FRAME_COUNT * atlas_slot(
            self.activity(),
        )) as nat
    }

    /// The atlas index shown for this state at a frame.
    pub open spec fn atlas_index(self, frame: nat) -> nat {
        self.atlas_base() + frame
    }

    /// The pivot shift shown for this state at a frame.
    pub open spec fn anchor_point(self, frame: nat) -> AnchorPoint {
        AnchorPoint { x: anchor_shift(self.activity(), self.direction(), frame) as i32, y: 0 }
    }

    /// The facing of this state.
    pub fn get_direction(&self) -> (d: Direction)
        ensures
            d == self.direction(),
    {
        match self {
            Self::IdlingT | Self::WalkingT | Self::HoeingT | Self::WateringT | Self::ChoppingT => {
                Direction::Top
            },
            Self::IdlingB | Self::WalkingB | Self::HoeingB | Self::WateringB | Self::ChoppingB => {
                Direction::Bottom
            },
            Self::IdlingL | Self::WalkingL | Self::HoeingL | Self::WateringL | Self::ChoppingL => {
                Direction::Left
            },
            Self::IdlingR | Self::WalkingR | Self::HoeingR | Self::WateringR | Self::ChoppingR => {
                Direction::Right
            },
        }
    }

    /// The activity of this state.
    pub fn get_activity(&self) -> (a: Activity)
        ensures
            a == self.activity(),
    {
        match self {
            Self::IdlingT | Self::IdlingB | Self::IdlingL | Self::IdlingR => Activity::Idling,
            Self::WalkingT | Self::WalkingB | Self::WalkingL | Self::WalkingR => Activity::Walking,
            Self::HoeingT | Self::HoeingB | Self::HoeingL | Self::HoeingR => Activity::Acting(
                ActionType::Hoeing,
            ),
            Self::WateringT | Self::WateringB | Self::WateringL | Self::WateringR => {
                Activity::Acting(ActionType::Watering)
            },
            Self::ChoppingT | Self::ChoppingB | Self::ChoppingL | Self::ChoppingR => {
                Activity::Acting(ActionType::Chopping)
            },
        }
    }

    /// The state of a tool action performed while facing a direction.
    pub fn from_action_and_direction(action: ActionType, direction: Direction) -> (s: Self)
        ensures
            s == state_of(Activity::Acting(action), direction),
            s.activity() == Activity::Acting(action),
            s.direction() == direction,
    {
        match (action, direction) {
            (ActionType::Hoeing, Direction::Top) => Self::HoeingT,
            (ActionType::Hoeing, Direction::Bottom) => Self::HoeingB,
            (ActionType::Hoeing, Direction::Left) => Self::HoeingL,
            (ActionType::Hoeing, Direction::Right) => Self::HoeingR,
            (ActionType::Watering, Direction::Top) => Self::WateringT,
            (ActionType::Watering, Direction::Bottom) => Self::WateringB,
            (ActionType::Watering, Direction::Left) => Self::WateringL,
            (ActionType::Watering, Direction::Right) => Self::WateringR,
            (ActionType::Chopping, Direction::Top) => Self::ChoppingT,
            (ActionType::Chopping, Direction::Bottom) => Self::ChoppingB,
            (ActionType::Chopping, Direction::Left) => Self::ChoppingL,
            (ActionType::Chopping, Direction::Right) => Self::ChoppingR,
        }
    }

    /// The idle state that faces a direction.
    pub fn idling(direction: Direction) -> (s: Self)
        ensures
            s == state_of(Activity::Idling, direction),
    {
        match direction {
            Direction::Top => Self::IdlingT,
            Direction::Bottom => Self::IdlingB,
            Direction::Left => Self::IdlingL,
            Direction::Right => Self::IdlingR,
        }
    }

    /// The walking state that faces a direction.
    pub fn walking(direction: Direction) -> (s: Self)
        ensures
            s == state_of(Activity::Walking, direction),
    {
        match direction {
            Direction::Top => Self::WalkingT,
            Direction::Bottom => Self::WalkingB,
            Direction::Left => Self::WalkingL,
            Direction::Right => Self::WalkingR,
        }
    }

    /// Whether this is one of the four walking states.
    pub fn is_walking(&self) -> (b: bool)
        ensures
            b == (self.activity() == Activity::Walking),
    {
        matches!(self, Self::WalkingT | Self::WalkingB | Self::WalkingL | Self::WalkingR)
    }

    /// Whether this is one of the four idle states.
    pub fn _is_idling(&self) -> (b: bool)
        ensures
            b == (self.activity() == Activity::Idling),
    {
        matches!(self, Self::IdlingT | Self::IdlingB | Self::IdlingL | Self::IdlingR)
    }

    /// Whether this is one of the twelve tool-action states.
    pub fn is_acting(&self) -> (b: bool)
        ensures
            b == (self.activity() is Acting),
    {
        match self.get_activity() {
            Activity::Acting(_) => true,
            _ => false,
        }
    }

    /// Frames in this state's cycle.
    pub fn frame_count(&self) -> (n: usize)
        ensures
            n == FRAME_COUNT,
    {
        FRAME_COUNT
    }

    /// Milliseconds each frame of this state is shown.
    pub fn interval_millis(&self) -> (ms: u64)
        ensures
            ms * 1_000_000 == self.interval_nanos(),
    {
        match self.get_activity() {
            Activity::Idling => IDLE_INTERVAL_MILLIS,
            Activity::Walking => WALKING_INTERVAL_MILLIS,
            Activity::Acting(_) => ACTION_INTERVAL_MILLIS,
        }
    }

    /// The atlas index shown for this state at one of its two frames.
    pub fn sample_atlas_index(&self, frame: usize) -> (i: usize)
        requires
            frame < FRAME_COUNT,
        ensures
            i == self.atlas_index(frame as nat),
    {
        match self {
            Self::IdlingB => frame,
            Self::WalkingB => 2 + frame,
            Self::IdlingL => 32 + frame,
            Self::WalkingL => 34 + frame,
            Self::IdlingR => 48 + frame,
            Self::WalkingR => 50 + frame,
            Self::IdlingT => 16 + frame,
            Self::WalkingT => 18 + frame,
            Self::HoeingT => 20 + frame,
            Self::HoeingB => 4 + frame,
            Self::HoeingL => 36 + frame,
            Self::HoeingR => 52 + frame,
            Self::WateringT => 24 + frame,
            Self::WateringB => 8 + frame,
            Self::WateringL => 40 + frame,
            Self::WateringR => 56 + frame,
            Self::ChoppingT => 22 + frame,
            Self::ChoppingB => 6 + frame,
            Self::ChoppingL => 38 + frame,
            Self::ChoppingR => 54 + frame,
        }
    }

    /// The pivot shift for this state at a frame, in hundredths of the sprite's
    /// size. Every frame other than 1 shares the shift of frame 0.
    pub fn get_anchor_point(&self, frame: usize) -> (p: AnchorPoint)
        ensures
            p == self.anchor_point(frame as nat),
            !(self.activity() is Acting) ==> p == (AnchorPoint { x: 0, y: 0 }),
    {
        let x: i32 = match self {
            Self::HoeingL => if frame == 1 { 20 } else { 0 },
            Self::HoeingR => if frame == 1 { -20 } else { 0 },
            Self::WateringR => if frame == 1 { -20 } else { -25 },
            Self::WateringL => if frame == 1 { 30 } else { 25 },
            Self::ChoppingR => if frame == 1 { -20 } else { 20 },
            Self::ChoppingL => if frame == 1 { 20 } else { -20 },
            Self::ChoppingT => if frame == 1 { -10 } else { 0 },
            Self::ChoppingB => if frame == 1 { 0 } else { 10 },
            _ => 0,
        };
        AnchorPoint { x, y: 0 }
    }
}

/// No two frames share a place in the atlas, and every frame lies within the
/// atlas's six rows.
pub proof fn lemma_atlas_index_unique(
    s1: PlayerAnimationState,
    f1: nat,
    s2: PlayerAnimationState,
    f2: nat,
)
    requires
        f1 < FRAME_COUNT,
        f2 < FRAME_COUNT,
    ensures
        s1.atlas_index(f1) < 6 * ATLAS_ROW_LENGTH,
        s1.atlas_index(f1) == s2.atlas_index(f2) ==> s1 == s2 && f1 == f2,
{
}

/// Every state is the combination of its own activity and facing, and every
/// combination of an activity and a facing is a state with exactly those.
pub proof fn lemma_state_parts(s: PlayerAnimationState, a: Activity, d: Direction)
    ensures
        state_of(s.activity(), s.direction()) == s,
        state_of(a, d).activity() == a,
        state_of(a, d).direction() == d,
{
}

} // verus!
