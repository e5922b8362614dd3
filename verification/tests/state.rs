use farm_actor::state::ActionType;
use farm_actor::state::Activity;
use farm_actor::state::AnchorPoint;
use farm_actor::state::Direction;
use farm_actor::state::PlayerAnimationState;

use farm_actor::state::PlayerAnimationState as S;

const ALL_STATES: [PlayerAnimationState; 20] = [
    S::IdlingT, S::IdlingB, S::IdlingL, S::IdlingR, S::WalkingT, S::WalkingB, S::WalkingL, S::WalkingR, S::HoeingT, S::HoeingB,
    S::HoeingL, S::HoeingR, S::WateringT, S::WateringB, S::WateringL, S::WateringR, S::ChoppingT, S::ChoppingB, S::ChoppingL,
    S::ChoppingR,
];

#[test]
fn atlas_index_matches_the_table_for_every_state_and_frame() {
    let table: [(PlayerAnimationState, usize); 20] = [
        (S::IdlingB, 0),
        (S::WalkingB, 2),
        (S::HoeingB, 4),
        (S::ChoppingB, 6),
        (S::WateringB, 8),
        (S::IdlingT, 16),
        (S::WalkingT, 18),
        (S::HoeingT, 20),
        (S::ChoppingT, 22),
        (S::WateringT, 24),
        (S::IdlingL, 32),
        (S::WalkingL, 34),
        (S::HoeingL, 36),
        (S::ChoppingL, 38),
        (S::WateringL, 40),
        (S::IdlingR, 48),
        (S::WalkingR, 50),
        (S::HoeingR, 52),
        (S::ChoppingR, 54),
        (S::WateringR, 56),
    ];
    for (state, base) in table {
        assert_eq!(state.sample_atlas_index(0), base);
        assert_eq!(state.sample_atlas_index(1), base + 1);
    }
}

#[test]
fn atlas_indices_are_distinct_and_inside_the_six_row_atlas() {
    let mut seen = vec![false; 96];
    for state in ALL_STATES {
        for frame in 0..2 {
            let index = state.sample_atlas_index(frame);
            assert!(index < 96);
            assert!(!seen[index]);
            seen[index] = true;
        }
    }
}

#[test]
fn anchor_point_matches_the_table() {
    let shifted: [(PlayerAnimationState, i32, i32); 8] = [
        (S::HoeingL, 0, 20),
        (S::HoeingR, 0, -20),
        (S::WateringR, -25, -20),
        (S::WateringL, 25, 30),
        (S::ChoppingR, 20, -20),
        (S::ChoppingL, -20, 20),
        (S::ChoppingT, 0, -10),
        (S::ChoppingB, 10, 0),
    ];
    for (state, first, second) in shifted {
        assert_eq!(state.get_anchor_point(0), AnchorPoint { x: first, y: 0 });
        assert_eq!(state.get_anchor_point(1), AnchorPoint { x: second, y: 0 });
    }
    for state in [S::HoeingT, S::HoeingB, S::WateringT, S::WateringB] {
        assert_eq!(state.get_anchor_point(0), AnchorPoint { x: 0, y: 0 });
        assert_eq!(state.get_anchor_point(1), AnchorPoint { x: 0, y: 0 });
    }
}

#[test]
fn anchor_point_is_zero_outside_tool_actions() {
    for state in [S::IdlingT, S::IdlingB, S::IdlingL, S::IdlingR, S::WalkingT, S::WalkingB, S::WalkingL, S::WalkingR] {
        for frame in 0..4 {
            assert_eq!(state.get_anchor_point(frame), AnchorPoint { x: 0, y: 0 });
        }
    }
}

#[test]
fn anchor_point_of_a_later_frame_is_that_of_frame_zero() {
    assert_eq!(S::WateringL.get_anchor_point(2), AnchorPoint { x: 25, y: 0 });
    assert_eq!(S::ChoppingB.get_anchor_point(7), AnchorPoint { x: 10, y: 0 });
}

#[test]
fn direction_of_every_state() {
    for state in [S::IdlingT, S::WalkingT, S::HoeingT, S::WateringT, S::ChoppingT] {
        assert_eq!(state.get_direction(), Direction::Top);
    }
    for state in [S::IdlingB, S::WalkingB, S::HoeingB, S::WateringB, S::ChoppingB] {
        assert_eq!(state.get_direction(), Direction::Bottom);
    }
    for state in [S::IdlingL, S::WalkingL, S::HoeingL, S::WateringL, S::ChoppingL] {
        assert_eq!(state.get_direction(), Direction::Left);
    }
    for state in [S::IdlingR, S::WalkingR, S::HoeingR, S::WateringR, S::ChoppingR] {
        assert_eq!(state.get_direction(), Direction::Right);
    }
}

#[test]
fn from_action_and_direction_covers_all_twelve() {
    let expected = [
        (ActionType::Hoeing, Direction::Top, S::HoeingT),
        (ActionType::Hoeing, Direction::Bottom, S::HoeingB),
        (ActionType::Hoeing, Direction::Left, S::HoeingL),
        (ActionType::Hoeing, Direction::Right, S::HoeingR),
        (ActionType::Watering, Direction::Top, S::WateringT),
        (ActionType::Watering, Direction::Bottom, S::WateringB),
        (ActionType::Watering, Direction::Left, S::WateringL),
        (ActionType::Watering, Direction::Right, S::WateringR),
        (ActionType::Chopping, Direction::Top, S::ChoppingT),
        (ActionType::Chopping, Direction::Bottom, S::ChoppingB),
        (ActionType::Chopping, Direction::Left, S::ChoppingL),
        (ActionType::Chopping, Direction::Right, S::ChoppingR),
    ];
    for (action, direction, state) in expected {
        assert_eq!(PlayerAnimationState::from_action_and_direction(action, direction), state);
        assert_eq!(state.get_activity(), Activity::Acting(action));
        assert_eq!(state.get_direction(), direction);
    }
}

#[test]
fn idling_and_walking_keep_the_direction() {
    for direction in [Direction::Top, Direction::Bottom, Direction::Left, Direction::Right] {
        let idle = PlayerAnimationState::idling(direction);
        let walk = PlayerAnimationState::walking(direction);
        assert_eq!(idle.get_direction(), direction);
        assert_eq!(walk.get_direction(), direction);
        assert!(idle._is_idling() && !idle.is_walking() && !idle.is_acting());
        assert!(walk.is_walking() && !walk._is_idling() && !walk.is_acting());
    }
}

#[test]
fn frame_interval_by_activity() {
    for state in ALL_STATES {
        let expected = match state.get_activity() {
            Activity::Idling => 500,
            Activity::Walking => 150,
            Activity::Acting(_) => 300,
        };
        assert_eq!(state.interval_millis(), expected);
        assert_eq!(state.frame_count(), 2);
    }
}
