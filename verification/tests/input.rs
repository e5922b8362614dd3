use farm_actor::input::record_player_directional_input;
use farm_actor::input::DirectionalInput;
use farm_actor::input::MovementIntent;
use farm_actor::state::Direction;

fn held(up: bool, down: bool, left: bool, right: bool) -> MovementIntent {
    record_player_directional_input(&DirectionalInput { up, down, left, right })
}

#[test]
fn each_control_adds_one_step() {
    assert_eq!(held(true, false, false, false), MovementIntent { x: 0, y: 1 });
    assert_eq!(held(false, true, false, false), MovementIntent { x: 0, y: -1 });
    assert_eq!(held(false, false, true, false), MovementIntent { x: -1, y: 0 });
    assert_eq!(held(false, false, false, true), MovementIntent { x: 1, y: 0 });
    assert_eq!(held(true, false, false, true), MovementIntent { x: 1, y: 1 });
    assert_eq!(held(false, true, true, false), MovementIntent { x: -1, y: -1 });
}

#[test]
fn opposite_controls_cancel() {
    assert_eq!(held(false, false, false, false), MovementIntent { x: 0, y: 0 });
    assert_eq!(held(true, true, false, false), MovementIntent { x: 0, y: 0 });
    assert_eq!(held(false, false, true, true), MovementIntent { x: 0, y: 0 });
    assert_eq!(held(true, true, true, true), MovementIntent { x: 0, y: 0 });
    assert_eq!(held(true, true, false, true), MovementIntent { x: 1, y: 0 });
    assert!(held(true, true, true, true).get_is_zero());
    assert!(!held(true, false, true, true).get_is_zero());
}

#[test]
fn heading_prefers_the_horizontal_axis_on_a_tie() {
    assert_eq!(MovementIntent { x: 1, y: 1 }.get_heading(), Direction::Right);
    assert_eq!(MovementIntent { x: -5, y: 5 }.get_heading(), Direction::Left);
    assert_eq!(MovementIntent { x: 5, y: 6 }.get_heading(), Direction::Top);
    assert_eq!(MovementIntent { x: 5, y: -6 }.get_heading(), Direction::Bottom);
    assert_eq!(MovementIntent { x: 0, y: 0 }.get_heading(), Direction::Left);
}
