use vstd::prelude::*;

verus! {

/// Facing and running state of the player character.
#[derive(Clone, Copy, Debug, PartialEq, Eq, Structural)]
pub enum PlayerDirection {
    FaceLeft,
    FaceRight,
    RunLeft,
    RunRight,
}

impl Default for PlayerDirection {
    /// A freshly spawned character faces right.
    fn default() -> (r: PlayerDirection)
        ensures
            r == PlayerDirection::FaceRight,
    {
        PlayerDirection::FaceRight
    }
}

/// The idle state that keeps the side a state faces.
pub open spec fn facing_of(d: PlayerDirection) -> PlayerDirection {
    match d {
        PlayerDirection::FaceLeft | PlayerDirection::RunLeft => PlayerDirection::FaceLeft,
        PlayerDirection::FaceRight | PlayerDirection::RunRight => PlayerDirection::FaceRight,
    }
}

/// The state after one tick. Airborne ticks keep the state; on the ground a
/// held left key wins over a held right key, and with neither held the
/// character stops and keeps facing the same side.
pub open spec fn next_direction_spec(
    d: PlayerDirection,
    grounded: bool,
    left: bool,
    right: bool,
) -> PlayerDirection {
    if !grounded {
        d
    } else if left {
        PlayerDirection::RunLeft
    } else if right {
        PlayerDirection::RunRight
    } else {
        facing_of(d)
    }
}

/// Whether the sprite is drawn mirrored: it is for the right-facing states.
pub open spec fn flips(d: PlayerDirection) -> bool {
    d is FaceRight || d is RunRight
}

/// Horizontal run direction of a state: -1 to the left, 1 to the right, 0 idle.
pub open spec fn run_sign_spec(d: PlayerDirection) -> int {
    match d {
        PlayerDirection::RunLeft => -1,
        PlayerDirection::RunRight => 1,
        _ => 0,
    }
}

/// Applies one tick of input to the facing state.
pub fn next_direction(d: PlayerDirection, grounded: bool, left: bool, right: bool) -> (r:
    PlayerDirection)
    ensures
        r == next_direction_spec(d, grounded, left, right),
{
    if !grounded {
        d
    } else if left {
        PlayerDirection::RunLeft
    } else if right {
        PlayerDirection::RunRight
    } else {
        match d {
            PlayerDirection::FaceLeft | PlayerDirection::RunLeft => PlayerDirection::FaceLeft,
            PlayerDirection::FaceRight | PlayerDirection::RunRight => PlayerDirection::FaceRight,
        }
    }
}

/// Whether the sprite of a character in state `direction` is mirrored.
pub fn flip_player(direction: PlayerDirection) -> (r: bool)
    ensures
        r == flips(direction),
        r <==> (direction == PlayerDirection::FaceRight || direction == PlayerDirection::RunRight),
{
    match direction {
        PlayerDirection::FaceLeft | PlayerDirection::RunLeft => false,
        PlayerDirection::FaceRight | PlayerDirection::RunRight => true,
    }
}

/// The sign of the horizontal velocity that a state drives.
pub fn run_sign(direction: PlayerDirection) -> (r: i8)
    ensures
        r == run_sign_spec(direction),
        direction is RunLeft ==> r == -1,
        direction is RunRight ==> r == 1,
        (direction is FaceLeft || direction is FaceRight) ==> r == 0,
{
    match direction {
        PlayerDirection::RunLeft => -1,
        PlayerDirection::RunRight => 1,
        _ => 0,
    }
}

/// Feeding the same held keys twice in a row changes nothing the second time:
/// the state after one tick is a fixed point of that input.
pub proof fn lemma_next_direction_idempotent(
    d: PlayerDirection,
    grounded: bool,
    left: bool,
    right: bool,
)
    ensures
        next_direction_spec(next_direction_spec(d, grounded, left, right), grounded, left, right)
            == next_direction_spec(d, grounded, left, right),
{
}

} // verus!
