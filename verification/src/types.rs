//! Data model of a battle session: players, the session record, the request
//! and reply vocabulary, and the rejection reasons.

use vstd::prelude::*;

verus! {

/// Address of an on-chain account or program, abstracted to a plain
/// identifier; the engine only ever compares addresses for equality.
pub type ActorId = u64;

/// Identifier of a combat entity (the creature registered into a battle).
pub type TamagotchiId = ActorId;

/// Identifier of an equipped attribute (a sword or a shield).
pub type AttributeId = u32;

/// The side a player faces or aims at during a move.
#[derive(Clone, Copy, Debug, PartialEq, Eq, Structural)]
pub enum Side {
    Left,
    Right,
}

/// A combat action requested by a move. Anything the caller sends outside
/// the two recognised actions arrives as `Other`: such a move performs no
/// combat effect but still advances the turn bookkeeping.
#[derive(Clone, Copy, Debug, PartialEq, Eq, Structural)]
pub enum MoveAction {
    Attack,
    Defend,
    Other,
}

/// Lifecycle state of the battle session.
#[derive(Clone, Copy, Debug, PartialEq, Eq, Structural)]
pub enum BattleState {
    Registration,
    Moves,
    Waiting,
    GameIsOver,
}

/// One registered entity in a session.
#[derive(Clone, Debug, PartialEq, Eq)]
#[verifier::ext_equal]
pub struct Player {
    /// Account that controls the entity; fetched from the entity's own
    /// program at registration, never caller-supplied.
    pub owner: ActorId,
    /// The combat entity itself.
    pub tmg_id: TamagotchiId,
    /// Session-scoped hit points; 0 means defeated.
    pub energy: u16,
    /// Attack strength, fixed at registration.
    pub power: u16,
    /// Equipped attribute identifiers, refreshed between rounds.
    pub attributes: Vec<AttributeId>,
    /// The side the player currently faces; set on every recognised move.
    pub actual_side: Side,
}

/// The battle session record, singleton per program instance.
#[derive(Clone, Debug, PartialEq, Eq)]
#[verifier::ext_equal]
pub struct Battle {
    /// Registered players; index 0/1 fixes turn identity.
    pub players: Vec<Player>,
    /// Lifecycle state.
    pub state: BattleState,
    /// Index (0 or 1) of the player whose move is expected next; only
    /// meaningful in `Moves`.
    pub current_turn: u8,
    /// Address of the attribute store collaborator, fixed at creation.
    pub tmg_store_id: ActorId,
    /// Entity that won, once a game has ended; stale between games.
    pub winner: ActorId,
    /// Moves taken in the current round, bounded by the round budget.
    pub steps: u8,
}

/// An inbound request to the session.
#[derive(Clone, Copy, Debug, PartialEq, Eq, Structural)]
pub enum BattleAction {
    Register(TamagotchiId),
    Move(Side, MoveAction),
    UpdateInfo,
    ResetContract,
}

/// A reply or notification emitted by the session.
#[derive(Clone, Copy, Debug, PartialEq, Eq, Structural)]
pub enum BattleEvent {
    Registered { tmg_id: TamagotchiId },
    Moved { tmg_id: TamagotchiId, steps: u8 },
    GameOver { winner: ActorId },
    GoToWaitingState,
    InfoUpdated,
    GameIsOver,
    MoveMade,
    AttackMissed,
    RestartedContract,
    SuccessfullyAttacked,
    SuccessfullyDefended,
}

/// Why a request was rejected. A rejection is fatal to that request alone:
/// the session is left unchanged.
#[derive(Clone, Copy, Debug, PartialEq, Eq, Structural)]
pub enum BattleError {
    /// `Register` sent while a game is under way.
    GameAlreadyStarted,
    /// `Move` sent while the session is not in `Moves`.
    NotInMovesState,
    /// The move's sender does not own the player whose turn it is.
    NotYourTurn,
    /// `UpdateInfo` sent by anyone other than the program itself.
    NotFromSelf,
    /// `UpdateInfo` sent while the session is not in `Waiting`.
    NotInWaitingState,
    /// `ResetContract` sent while the session is not in `GameIsOver`.
    GameNotOver,
}

} // verus!
