use crate::direction::{
    next_direction, next_direction_spec, run_sign, run_sign_spec, PlayerDirection,
};
use crate::pickup::{coins_hit, collect_coins, CoinCollector, Collectibles};
use vstd::prelude::*;

verus! {

/// What happens to the vertical velocity in a tick.
#[derive(Clone, Copy, Debug, PartialEq, Eq, Structural)]
pub enum VerticalUpdate {
    /// Left as it is: the character stands on the ground.
    Hold,
    /// Set to the jump impulse.
    Jump,
    /// Lowered by gravity times the tick's length.
    Fall,
}

/// Keys held during a tick.
#[derive(Clone, Copy, Debug, PartialEq, Eq, Structural)]
pub struct PlayerInput {
    pub left: bool,
    pub right: bool,
    pub jump: bool,
}

/// What the engine does with the character's velocity in a tick: the
/// horizontal velocity becomes `run` times the run speed times the tick's
/// length, and the vertical one changes as `vertical` says.
#[derive(Clone, Copy, Debug, PartialEq, Eq, Structural)]
pub struct MotionPlan {
    pub run: i8,
    pub vertical: VerticalUpdate,
}

/// What the collider sweep reported at the end of a tick: whether the
/// character rests on the ground, and the entity ids it touched.
pub struct MotionOutput {
    pub grounded: bool,
    pub contacts: Vec<u64>,
}

/// The player character's state between ticks, apart from its position and
/// velocity, which the engine keeps.
#[derive(Clone, Copy, Debug, PartialEq, Eq, Structural)]
pub struct Player {
    pub direction: PlayerDirection,
    /// Whether the last sweep left the character on the ground.
    pub grounded: bool,
    /// Whether the jump key was held in the last tick.
    pub jump_held: bool,
    pub coins: CoinCollector,
}

/// A key press starts in the tick where the key is held and was not before.
pub open spec fn pressed(was_held: bool, held: bool) -> bool {
    held && !was_held
}

/// Airborne, gravity acts; on the ground a new press of jump sets the jump
/// impulse, and otherwise the vertical velocity is left alone.
pub open spec fn vertical_update_spec(grounded: bool, jump_pressed: bool) -> VerticalUpdate {
    if !grounded {
        VerticalUpdate::Fall
    } else if jump_pressed {
        VerticalUpdate::Jump
    } else {
        VerticalUpdate::Hold
    }
}

/// The state after the input of a tick has been read.
pub open spec fn next_player(p: Player, input: PlayerInput) -> Player {
    Player {
        direction: next_direction_spec(p.direction, p.grounded, input.left, input.right),
        jump_held: input.jump,
        ..p
    }
}

/// The plan made from the input of a tick.
pub open spec fn plan_of(p: Player, input: PlayerInput) -> MotionPlan {
    MotionPlan {
        run: run_sign_spec(next_player(p, input).direction) as i8,
        vertical: vertical_update_spec(p.grounded, pressed(p.jump_held, input.jump)),
    }
}

impl Player {
    /// A character just placed in the level: facing right, not yet known to
    /// stand on anything, no key held, no coin.
    pub fn new() -> (r: Player)
        ensures
            r.direction == PlayerDirection::FaceRight,
            !r.grounded,
            !r.jump_held,
            r.coins.0 == 0,
    {
        Player {
            direction: PlayerDirection::FaceRight,
            grounded: false,
            jump_held: false,
            coins: CoinCollector(0),
        }
    }
}

/// Decides the vertical velocity change of a tick.
pub fn vertical_update(grounded: bool, jump_pressed: bool) -> (r: VerticalUpdate)
    ensures
        r == vertical_update_spec(grounded, jump_pressed),
{
    if !grounded {
        VerticalUpdate::Fall
    } else if jump_pressed {
        VerticalUpdate::Jump
    } else {
        VerticalUpdate::Hold
    }
}

/// Reads a tick's keys: updates the facing state and the jump key's state, and
/// returns what to do with the velocity. Ground contact is the one the last
/// sweep reported.
pub fn player_input(player: &mut Player, input: &PlayerInput) -> (plan: MotionPlan)
    ensures
        *final(player) == next_player(*old(player), *input),
        plan == plan_of(*old(player), *input),
{
    let jump_pressed = input.jump && !player.jump_held;
    player.direction = next_direction(player.direction, player.grounded, input.left, input.right);
    player.jump_held = input.jump;
    MotionPlan { run: run_sign(player.direction), vertical: vertical_update(player.grounded, jump_pressed) }
}

/// Takes in the result of a tick's sweep: the ground contact for the next
/// tick, and the coins touched.
pub fn read_output(player: &mut Player, output: &MotionOutput, world: &mut Collectibles)
    requires
        old(player).coins.0 + old(world)@.len() <= u32::MAX,
    ensures
        final(player).direction == old(player).direction,
        final(player).jump_held == old(player).jump_held,
        final(player).grounded == output.grounded,
        final(player).coins.0 == old(player).coins.0 + coins_hit(old(world)@, output.contacts@).len(),
        final(world)@ == old(world)@.remove_keys(coins_hit(old(world)@, output.contacts@)),
{
    player.grounded = output.grounded;
    collect_coins(world, &mut player.coins, &output.contacts);
}

/// On the ground with a run key held, the horizontal velocity takes the key's
/// sign (left winning over right).
pub proof fn lemma_run_follows_keys(p: Player, input: PlayerInput)
    requires
        p.grounded,
        input.left || input.right,
    ensures
        input.left ==> plan_of(p, input).run == -1,
        !input.left ==> plan_of(p, input).run == 1,
{
}

/// Airborne, gravity acts in every tick whatever the keys.
pub proof fn lemma_airborne_falls(p: Player, input: PlayerInput)
    requires
        !p.grounded,
    ensures
        plan_of(p, input).vertical == VerticalUpdate::Fall,
        next_player(p, input).direction == p.direction,
{
}

/// Holding jump over consecutive ticks on the ground jumps once: in the first
/// tick only if the key was up before, and never in the tick after, whatever
/// the sweep in between reported.
pub proof fn lemma_jump_once_while_held(p: Player, input: PlayerInput, landed: bool)
    requires
        p.grounded,
        input.jump,
    ensures
        plan_of(p, input).vertical == VerticalUpdate::Jump <==> !p.jump_held,
        plan_of((Player { grounded: landed, ..next_player(p, input) }), input).vertical
            != VerticalUpdate::Jump,
{
}

/// A character standing idle on the ground with no key held stays as it is,
/// and asks for no motion, tick after tick.
pub proof fn lemma_rest_is_fixed_point(p: Player)
    requires
        p.grounded,
        !p.jump_held,
        p.direction is FaceLeft || p.direction is FaceRight,
    ensures
        ({
            let keys = PlayerInput { left: false, right: false, jump: false };
            &&& next_player(p, keys) == p
            &&& plan_of(p, keys) == (MotionPlan { run: 0, vertical: VerticalUpdate::Hold })
        }),
{
}

} // verus!
