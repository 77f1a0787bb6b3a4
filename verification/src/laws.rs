//! Laws of the engine: properties that span several handlers or several
//! calls, proved once and for all over the same spec functions the handlers'
//! contracts use.

use vstd::prelude::*;
use crate::battle::{spec_move_post, spec_register_post, MoveOutcome, MAX_STEPS_FOR_ROUND};
use crate::engine::{
    spec_apply_action, spec_damage, spec_shield_protection, spec_sword_power,
};
use crate::types::{
    ActorId, AttributeId, Battle, BattleEvent, MoveAction, Player, Side, TamagotchiId,
};

verus! {

/// Energy arithmetic saturates: an attack that lands subtracts the clamped
/// damage and floors at 0, never wrapping below; a defence that matches adds
/// the shield's protection and caps at the largest representable energy,
/// never wrapping above. Every other action leaves both energies where they
/// were.
pub proof fn lemma_energy_saturation(
    mover: Player,
    opponent: Player,
    direction: Side,
    action: MoveAction,
)
    ensures
        ({
            let effect = spec_apply_action(mover, opponent, direction, action);
            let damage = spec_damage(spec_sword_power(mover.attributes@), mover.power);
            let protection = spec_shield_protection(mover.attributes@);
            &&& action is Attack && direction == opponent.actual_side ==> effect.1.energy == (
            if opponent.energy >= damage {
                opponent.energy - damage
            } else {
                0
            })
            &&& action is Defend && direction == opponent.actual_side ==> effect.0.energy == (
            if mover.energy + protection <= u16::MAX {
                mover.energy + protection
            } else {
                u16::MAX as int
            })
            &&& action is Attack ==> effect.0.energy == mover.energy
            &&& action is Defend ==> effect.1.energy == opponent.energy
            &&& action is Other ==> effect.0 == mover && effect.1 == opponent
            &&& 0 <= effect.0.energy <= u16::MAX
            &&& 0 <= effect.1.energy <= u16::MAX
        }),
{
}

/// Registering two entities into an empty session deterministically reaches
/// `Moves` with both seats filled, in registration order; and since the
/// session has then left `Registration`, a third registration is rejected.
pub proof fn lemma_two_registrations_reach_moves(
    b0: Battle,
    b1: Battle,
    b2: Battle,
    tmg_a: TamagotchiId,
    owner_a: ActorId,
    attrs_a: Vec<AttributeId>,
    power_a: Seq<u8>,
    energy_a: Seq<u8>,
    side_a: Seq<u8>,
    turn_a: Seq<u8>,
    tmg_b: TamagotchiId,
    owner_b: ActorId,
    attrs_b: Vec<AttributeId>,
    power_b: Seq<u8>,
    energy_b: Seq<u8>,
    side_b: Seq<u8>,
    turn_b: Seq<u8>,
)
    requires
        tmg_a != tmg_b,
        b0.state is Registration,
        b0.players@.len() == 0,
        spec_register_post(b0, b1, tmg_a, owner_a, attrs_a, power_a, energy_a, side_a, turn_a),
        spec_register_post(b1, b2, tmg_b, owner_b, attrs_b, power_b, energy_b, side_b, turn_b),
    ensures
        b1.state is Registration,
        b2.state is Moves,
        b2.players@.len() == 2,
        b2.players@[0].tmg_id == tmg_a,
        b2.players@[1].tmg_id == tmg_b,
        b2.current_turn < 2,
        b2.state !is Registration,
{
}

/// A matched attack: when the mover attacks on the side the opponent is
/// facing, the opponent's energy drops by exactly the sword multiplier times
/// the mover's power (clamped at the representable maximum), floored at 0;
/// and when that floors the opponent's energy to 0, the reply is the end of
/// the game with the mover's entity recorded as winner.
pub proof fn lemma_matched_attack(
    pre: Battle,
    post: Battle,
    outcome: MoveOutcome,
    direction: Side,
)
    requires
        pre.state is Moves,
        pre.players@.len() == 2,
        pre.current_turn < 2,
        spec_move_post(pre, post, outcome, direction, MoveAction::Attack),
        direction == pre.players@[1 - pre.current_turn as int].actual_side,
    ensures
        ({
            let mover = pre.players@[pre.current_turn as int];
            let opponent = pre.players@[1 - pre.current_turn as int];
            let damage = spec_damage(spec_sword_power(mover.attributes@), mover.power);
            &&& outcome.notification == Some(BattleEvent::SuccessfullyAttacked)
            &&& opponent.energy > damage ==> post.players@[1 - pre.current_turn as int].energy
                == opponent.energy - damage
            &&& opponent.energy <= damage ==> post.state is GameIsOver
                && post.winner == mover.tmg_id && outcome.reply is GameIsOver
                && post.players@.len() == 0
        }),
{
}

/// The round budget: from a fresh round (`steps` at 0) in `Moves`, four
/// consecutive accepted moves that defeat nobody are each answered
/// `MoveMade` and pass the turn; the fifth such move is answered
/// `GoToWaitingState`, schedules the delayed refresh, sends the session to
/// `Waiting` and resets `steps` for the next round.
pub proof fn lemma_round_budget_exhaustion(
    b0: Battle,
    b1: Battle,
    b2: Battle,
    b3: Battle,
    b4: Battle,
    b5: Battle,
    o1: MoveOutcome,
    o2: MoveOutcome,
    o3: MoveOutcome,
    o4: MoveOutcome,
    o5: MoveOutcome,
    d1: Side,
    d2: Side,
    d3: Side,
    d4: Side,
    d5: Side,
    a1: MoveAction,
    a2: MoveAction,
    a3: MoveAction,
    a4: MoveAction,
    a5: MoveAction,
)
    requires
        b0.state is Moves,
        b0.current_turn < 2,
        b0.steps == 0,
        spec_move_post(b0, b1, o1, d1, a1),
        spec_move_post(b1, b2, o2, d2, a2),
        spec_move_post(b2, b3, o3, d3, a3),
        spec_move_post(b3, b4, o4, d4, a4),
        spec_move_post(b4, b5, o5, d5, a5),
        o1.reply !is GameIsOver,
        o2.reply !is GameIsOver,
        o3.reply !is GameIsOver,
        o4.reply !is GameIsOver,
        o5.reply !is GameIsOver,
    ensures
        o1.reply is MoveMade && o1.schedule is None,
        o2.reply is MoveMade && o2.schedule is None,
        o3.reply is MoveMade && o3.schedule is None,
        o4.reply is MoveMade && o4.schedule is None,
        b4.state is Moves,
        b4.steps == MAX_STEPS_FOR_ROUND + 1,
        o5.reply is GoToWaitingState,
        o5.schedule is Some,
        b5.state is Waiting,
        b5.steps == 0,
        b5.current_turn == b4.current_turn,
{
}

} // verus!
