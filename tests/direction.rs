use bob_ross_adventure::direction::{flip_player, next_direction, run_sign, PlayerDirection};

const ALL: [PlayerDirection; 4] = [
    PlayerDirection::FaceLeft,
    PlayerDirection::FaceRight,
    PlayerDirection::RunLeft,
    PlayerDirection::RunRight,
];

#[test]
fn default_direction_faces_right() {
    assert_eq!(PlayerDirection::default(), PlayerDirection::FaceRight);
}

#[test]
fn left_key_runs_left() {
    for d in ALL {
        assert_eq!(next_direction(d, true, true, false), PlayerDirection::RunLeft);
    }
}

#[test]
fn right_key_runs_right() {
    for d in ALL {
        assert_eq!(next_direction(d, true, false, true), PlayerDirection::RunRight);
    }
}

#[test]
fn left_wins_over_right() {
    for d in ALL {
        assert_eq!(next_direction(d, true, true, true), PlayerDirection::RunLeft);
    }
}

#[test]
fn no_key_keeps_facing_side() {
    assert_eq!(next_direction(PlayerDirection::RunRight, true, false, false), PlayerDirection::FaceRight);
    assert_eq!(next_direction(PlayerDirection::FaceRight, true, false, false), PlayerDirection::FaceRight);
    assert_eq!(next_direction(PlayerDirection::RunLeft, true, false, false), PlayerDirection::FaceLeft);
    assert_eq!(next_direction(PlayerDirection::FaceLeft, true, false, false), PlayerDirection::FaceLeft);
}

#[test]
fn airborne_keeps_direction() {
    for d in ALL {
        for (left, right) in [(false, false), (true, false), (false, true), (true, true)] {
            assert_eq!(next_direction(d, false, left, right), d);
        }
    }
}

#[test]
fn same_input_twice_is_stable() {
    for d in ALL {
        for grounded in [false, true] {
            for (left, right) in [(false, false), (true, false), (false, true), (true, true)] {
                let once = next_direction(d, grounded, left, right);
                assert_eq!(next_direction(once, grounded, left, right), once);
            }
        }
    }
}

#[test]
fn right_facing_states_flip_sprite() {
    assert!(!flip_player(PlayerDirection::FaceLeft));
    assert!(!flip_player(PlayerDirection::RunLeft));
    assert!(flip_player(PlayerDirection::FaceRight));
    assert!(flip_player(PlayerDirection::RunRight));
}

#[test]
fn run_sign_of_each_state() {
    assert_eq!(run_sign(PlayerDirection::RunLeft), -1);
    assert_eq!(run_sign(PlayerDirection::RunRight), 1);
    assert_eq!(run_sign(PlayerDirection::FaceLeft), 0);
    assert_eq!(run_sign(PlayerDirection::FaceRight), 0);
}
