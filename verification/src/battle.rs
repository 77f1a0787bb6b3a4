//! The battle state machine: the session record's lifecycle and the four
//! request handlers.
//!
//! Each handler is a pure transition: everything the message flow supplies —
//! the sender's address, the owner and attributes fetched from the
//! collaborators, the random byte draws — arrives as an argument, and every
//! message the host must send back — the reply, a best-effort notification to
//! the mover, a delayed self-directed refresh request — is returned as a
//! value. A rejected request returns an error and leaves the session
//! byte-for-byte unchanged.

use vstd::prelude::*;
use crate::engine::{
    attack_damage, shield_protection, spec_apply_action, sword_power,
};
use crate::random::{
    generate_energy, generate_power, get_turn, pick_side, spec_coin, spec_energy_roll,
    spec_power_roll, spec_side_of, DRAW_BYTES, MAX_POWER,
};
use crate::types::{
    ActorId, AttributeId, Battle, BattleAction, BattleError, BattleEvent, BattleState, Player,
    Side, MoveAction, TamagotchiId,
};

verus! {

/// Blocks the host waits before delivering the scheduled refresh request.
pub const TIME_FOR_UPDATE: u32 = 500;

/// Moves a round may hold beyond which the session goes to `Waiting`.
pub const MAX_STEPS_FOR_ROUND: u8 = 3;

/// Gas allowance attached to the scheduled refresh request.
pub const GAS_AMOUNT: u64 = 100_000_000;

/// A delayed self-directed `UpdateInfo` request the host must schedule;
/// fire-and-forget, with a fixed delay and a fixed gas allowance.
#[derive(Clone, Copy, Debug, PartialEq, Eq, Structural)]
pub struct ScheduledUpdate {
    /// Delay, in blocks, before the request is delivered.
    pub delay: u32,
    /// Gas allowance the request carries.
    pub gas: u64,
}

/// Everything a successful move hands back to the host: the reply to the
/// caller, a best-effort notification to the mover, and the delayed refresh
/// request to schedule, if any.
#[derive(Clone, Copy, Debug, PartialEq, Eq)]
pub struct MoveOutcome {
    /// The primary reply: `MoveMade`, `GoToWaitingState` or `GameIsOver`.
    pub reply: BattleEvent,
    /// The side-channel notification sent to the mover, if any.
    pub notification: Option<BattleEvent>,
    /// The delayed `UpdateInfo` request to schedule, if any.
    pub schedule: Option<ScheduledUpdate>,
}

impl Battle {
    /// Well-formedness of a session record: at most one player is waiting in
    /// `Registration`, both seats are filled in `Moves` and `Waiting`, the
    /// turn index points at a seat while moves are expected, and the player
    /// list is emptied on entering `GameIsOver`.
    pub open spec fn wf(self) -> bool {
        &&& self.state is Registration ==> self.players@.len() <= 1
        &&& self.state is Moves ==> self.players@.len() == 2 && self.current_turn < 2
        &&& self.state is Waiting ==> self.players@.len() == 2
        &&& self.state is GameIsOver ==> self.players@.len() == 0
    }

    /// A fresh session: open for registration, with the attribute store
    /// collaborator fixed for its whole lifetime.
    pub fn new(tmg_store_id: ActorId) -> (battle: Battle)
        ensures
            battle.players@.len() == 0,
            battle.state is Registration,
            battle.current_turn == 0,
            battle.tmg_store_id == tmg_store_id,
            battle.winner == 0,
            battle.steps == 0,
            battle.wf(),
    {
        Battle {
            players: Vec::new(),
            state: BattleState::Registration,
            current_turn: 0,
            tmg_store_id,
            winner: 0,
            steps: 0,
        }
    }

    /// Registers an entity into the session.
    ///
    /// The host has already asked the entity's own program for its `owner`
    /// and the attribute store for its `attributes`; the randomness source
    /// supplied one draw for each of power, energy and starting side, and one
    /// more that fixes the first turn once both seats are filled. The stored
    /// power is the inverted roll, `MAX_POWER` minus it, so it trends high
    /// when the raw roll was low.
    pub fn register(
        &mut self,
        tmg_id: TamagotchiId,
        owner: ActorId,
        attributes: Vec<AttributeId>,
        power_random: &[u8; DRAW_BYTES],
        energy_random: &[u8; DRAW_BYTES],
        side_random: &[u8; DRAW_BYTES],
        turn_random: &[u8; DRAW_BYTES],
    ) -> (r: Result<BattleEvent, BattleError>)
        requires
            old(self).wf(),
        ensures
            final(self).wf(),
            spec_transition_in_table(
                old(self).state,
                BattleAction::Register(tmg_id),
                final(self).state,
            ),
            old(self).state !is Registration ==> (r matches Err(e)
                && e == BattleError::GameAlreadyStarted && *final(self) == *old(self)),
            old(self).state is Registration ==> (r matches Ok(ev)
                && ev == (BattleEvent::Registered { tmg_id })
                && spec_register_post(
                *old(self),
                *final(self),
                tmg_id,
                owner,
                attributes,
                power_random@,
                energy_random@,
                side_random@,
                turn_random@,
            )),
    {
        if self.state != BattleState::Registration {
            return Err(BattleError::GameAlreadyStarted);
        }
        let power_roll = generate_power(power_random);
        let power = MAX_POWER - power_roll;
        let energy = generate_energy(energy_random);
        let actual_side = pick_side(side_random);
        let player = Player { owner, tmg_id, energy, power, attributes, actual_side };
        self.players.push(player);
        if self.players.len() == 2 {
            self.current_turn = get_turn(turn_random);
            self.state = BattleState::Moves;
        }
        Ok(BattleEvent::Registered { tmg_id })
    }

    /// Runs one move of the player whose turn it is.
    ///
    /// `source` is the sender of the request; only the owner of the player at
    /// `current_turn` may move. The combat effect is `spec_apply_action`;
    /// afterwards, a defeated opponent ends the game, an unexhausted round
    /// budget passes the turn, and an exhausted one sends the session to
    /// `Waiting` with a delayed refresh request for the host to schedule.
    pub fn make_move(
        &mut self,
        source: ActorId,
        direction: Side,
        combat_action: MoveAction,
    ) -> (r: Result<MoveOutcome, BattleError>)
        requires
            old(self).wf(),
        ensures
            final(self).wf(),
            spec_transition_in_table(
                old(self).state,
                BattleAction::Move(direction, combat_action),
                final(self).state,
            ),
            old(self).state !is Moves ==> (r matches Err(e)
                && e == BattleError::NotInMovesState && *final(self) == *old(self)),
            old(self).state is Moves
                && source != old(self).players@[old(self).current_turn as int].owner
                ==> (r matches Err(e) && e == BattleError::NotYourTurn
                && *final(self) == *old(self)),
            old(self).state is Moves
                && source == old(self).players@[old(self).current_turn as int].owner
                ==> (r matches Ok(outcome) && spec_move_post(
                *old(self),
                *final(self),
                outcome,
                direction,
                combat_action,
            )),
    {
        if self.state != BattleState::Moves {
            return Err(BattleError::NotInMovesState);
        }
        let turn: usize = self.current_turn as usize;
        let next: usize = 1 - turn;
        if source != self.players[turn].owner {
            return Err(BattleError::NotYourTurn);
        }
        let notification: Option<BattleEvent>;
        match combat_action {
            MoveAction::Attack => {
                let sword = sword_power(&self.players[turn].attributes);
                let damage = attack_damage(sword, self.players[turn].power);
                self.players[turn].actual_side = direction;
                if direction == self.players[next].actual_side {
                    let energy = self.players[next].energy;
                    self.players[next].energy = energy.saturating_sub(damage);
                    notification = Some(BattleEvent::SuccessfullyAttacked);
                } else {
                    notification = Some(BattleEvent::AttackMissed);
                }
            },
            MoveAction::Defend => {
                let shield = shield_protection(&self.players[turn].attributes);
                self.players[turn].actual_side = direction;
                if direction == self.players[next].actual_side {
                    let energy = self.players[turn].energy;
                    self.players[turn].energy = energy.saturating_add(shield);
                }
                notification = Some(BattleEvent::SuccessfullyDefended);
            },
            MoveAction::Other => {
                notification = None;
            },
        }
        proof {
            let turn_i = old(self).current_turn as int;
            let next_i = 1 - turn_i;
            let effect = spec_apply_action(
                old(self).players@[turn_i],
                old(self).players@[next_i],
                direction,
                combat_action,
            );
            assert(self.players@ =~= old(self).players@.update(turn_i, effect.0).update(
                next_i,
                effect.1,
            ));
        }
        if self.players[next].energy == 0 {
            let winner_id = self.players[turn].tmg_id;
            self.players.clear();
            self.state = BattleState::GameIsOver;
            self.winner = winner_id;
            Ok(MoveOutcome { reply: BattleEvent::GameIsOver, notification, schedule: None })
        } else if self.steps <= MAX_STEPS_FOR_ROUND {
            self.steps = self.steps + 1;
            self.current_turn = next as u8;
            Ok(MoveOutcome { reply: BattleEvent::MoveMade, notification, schedule: None })
        } else {
            self.state = BattleState::Waiting;
            self.steps = 0;
            Ok(MoveOutcome {
                reply: BattleEvent::GoToWaitingState,
                notification,
                schedule: Some(ScheduledUpdate { delay: TIME_FOR_UPDATE, gas: GAS_AMOUNT }),
            })
        }
    }

    /// Handles the delayed self-directed refresh request.
    ///
    /// Only the program itself may send it (`source` must equal
    /// `program_id`), and only while the session waits between rounds. The
    /// host has re-fetched both players' attributes from the store; a fresh
    /// coin flip picks whose turn opens the next round.
    pub fn update_info(
        &mut self,
        source: ActorId,
        program_id: ActorId,
        attributes_0: Vec<AttributeId>,
        attributes_1: Vec<AttributeId>,
        turn_random: &[u8; DRAW_BYTES],
    ) -> (r: Result<BattleEvent, BattleError>)
        requires
            old(self).wf(),
        ensures
            final(self).wf(),
            spec_transition_in_table(
                old(self).state,
                BattleAction::UpdateInfo,
                final(self).state,
            ),
            source != program_id ==> (r matches Err(e) && e == BattleError::NotFromSelf
                && *final(self) == *old(self)),
            source == program_id && old(self).state !is Waiting ==> (r matches Err(e)
                && e == BattleError::NotInWaitingState && *final(self) == *old(self)),
            source == program_id && old(self).state is Waiting ==> (r matches Ok(ev)
                && ev is InfoUpdated
                && final(self).players@.len() == 2
                && final(self).players@[0] == (Player {
                    attributes: attributes_0,
                    ..old(self).players@[0]
                })
                && final(self).players@[1] == (Player {
                    attributes: attributes_1,
                    ..old(self).players@[1]
                })
                && final(self).state is Moves
                && final(self).current_turn == spec_coin(turn_random@[0])
                && final(self).steps == old(self).steps
                && final(self).winner == old(self).winner
                && final(self).tmg_store_id == old(self).tmg_store_id),
    {
        if source != program_id {
            return Err(BattleError::NotFromSelf);
        }
        if self.state != BattleState::Waiting {
            return Err(BattleError::NotInWaitingState);
        }
        self.players[0].attributes = attributes_0;
        self.players[1].attributes = attributes_1;
        self.state = BattleState::Moves;
        self.current_turn = get_turn(turn_random);
        Ok(BattleEvent::InfoUpdated)
    }

    /// Reopens a finished session for registration.
    ///
    /// Rejected unless the game is over. The player list stays empty; the
    /// winner and step count of the previous game remain visible until the
    /// next game overwrites them.
    pub fn reset_contract(&mut self) -> (r: Result<BattleEvent, BattleError>)
        requires
            old(self).wf(),
        ensures
            final(self).wf(),
            spec_transition_in_table(
                old(self).state,
                BattleAction::ResetContract,
                final(self).state,
            ),
            old(self).state !is GameIsOver ==> (r matches Err(e)
                && e == BattleError::GameNotOver && *final(self) == *old(self)),
            old(self).state is GameIsOver ==> (r matches Ok(ev) && ev is RestartedContract
                && final(self).players@.len() == 0
                && *final(self) == (Battle { state: BattleState::Registration, ..*old(self) })),
    {
        if self.state != BattleState::GameIsOver {
            return Err(BattleError::GameNotOver);
        }
        self.state = BattleState::Registration;
        Ok(BattleEvent::RestartedContract)
    }
}

/// What an accepted registration does to the session: the new player is
/// appended with its owner and attributes as fetched, its energy rolled and
/// its power rolled and inverted from the draws, and its side flipped from a
/// coin; filling the second seat flips the first turn and opens `Moves`.
pub open spec fn spec_register_post(
    pre: Battle,
    post: Battle,
    tmg_id: TamagotchiId,
    owner: ActorId,
    attributes: Vec<AttributeId>,
    power_random: Seq<u8>,
    energy_random: Seq<u8>,
    side_random: Seq<u8>,
    turn_random: Seq<u8>,
) -> bool {
    &&& post.players@ == pre.players@.push(
        Player {
            owner,
            tmg_id,
            energy: spec_energy_roll(energy_random[0], energy_random[1]),
            power: (MAX_POWER - spec_power_roll(power_random[0], power_random[1])) as u16,
            attributes,
            actual_side: spec_side_of(side_random[0]),
        },
    )
    &&& if pre.players@.len() == 1 {
        post.state is Moves && post.current_turn == spec_coin(turn_random[0])
    } else {
        post.state is Registration && post.current_turn == pre.current_turn
    }
    &&& post.tmg_store_id == pre.tmg_store_id
    &&& post.winner == pre.winner
    &&& post.steps == pre.steps
}

/// The state-transition table: which lifecycle steps each request kind may
/// take. A request outside its state leaves the state where it was.
pub open spec fn spec_transition_in_table(
    pre: BattleState,
    action: BattleAction,
    post: BattleState,
) -> bool {
    match action {
        BattleAction::Register(_) => if pre is Registration {
            post is Registration || post is Moves
        } else {
            post == pre
        },
        BattleAction::Move(_, _) => if pre is Moves {
            post is Moves || post is Waiting || post is GameIsOver
        } else {
            post == pre
        },
        BattleAction::UpdateInfo => if pre is Waiting {
            post is Moves || post is Waiting
        } else {
            post == pre
        },
        BattleAction::ResetContract => if pre is GameIsOver {
            post is Registration
        } else {
            post == pre
        },
    }
}

/// What an accepted move does to the session, over `spec_apply_action`.
///
/// The mover is the player at `current_turn`, the opponent holds the other
/// seat. If the opponent ends the move with no energy the game is over and
/// the mover's entity is recorded as winner; otherwise the round budget
/// decides between passing the turn and going to `Waiting` with a scheduled
/// refresh.
pub open spec fn spec_move_post(
    pre: Battle,
    post: Battle,
    outcome: MoveOutcome,
    direction: Side,
    action: MoveAction,
) -> bool {
    let turn = pre.current_turn as int;
    let next = 1 - turn;
    let effect = spec_apply_action(pre.players@[turn], pre.players@[next], direction, action);
    let mover = effect.0;
    let opponent = effect.1;
    &&& outcome.notification == effect.2
    &&& post.tmg_store_id == pre.tmg_store_id
    &&& if opponent.energy == 0 {
        &&& post.players@.len() == 0
        &&& post.state is GameIsOver
        &&& post.winner == mover.tmg_id
        &&& post.current_turn == pre.current_turn
        &&& post.steps == pre.steps
        &&& outcome.reply is GameIsOver
        &&& outcome.schedule is None
    } else if pre.steps <= MAX_STEPS_FOR_ROUND {
        &&& post.players@ == pre.players@.update(turn, mover).update(next, opponent)
        &&& post.state is Moves
        &&& post.winner == pre.winner
        &&& post.current_turn == next as u8
        &&& post.steps == pre.steps + 1
        &&& outcome.reply is MoveMade
        &&& outcome.schedule is None
    } else {
        &&& post.players@ == pre.players@.update(turn, mover).update(next, opponent)
        &&& post.state is Waiting
        &&& post.winner == pre.winner
        &&& post.current_turn == pre.current_turn
        &&& post.steps == 0
        &&& outcome.reply is GoToWaitingState
        &&& outcome.schedule == Some(ScheduledUpdate { delay: TIME_FOR_UPDATE, gas: GAS_AMOUNT })
    }
}

} // verus!
