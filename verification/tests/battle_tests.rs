use tamagotchi_battle::battle::{ScheduledUpdate, GAS_AMOUNT, TIME_FOR_UPDATE};
use tamagotchi_battle::random::DRAW_BYTES;
use tamagotchi_battle::types::{
    Battle, BattleError, BattleEvent, BattleState, MoveAction, Player, Side,
};

const STORE: u64 = 7;

fn draw(b0: u8, b1: u8) -> [u8; DRAW_BYTES] {
    let mut bytes = [0u8; DRAW_BYTES];
    bytes[0] = b0;
    bytes[1] = b1;
    bytes
}

fn player(owner: u64, tmg_id: u64, energy: u16, power: u16, attributes: Vec<u32>, side: Side) -> Player {
    Player { owner, tmg_id, energy, power, attributes, actual_side: side }
}

fn battle_in_moves(p0: Player, p1: Player, turn: u8, steps: u8) -> Battle {
    Battle {
        players: vec![p0, p1],
        state: BattleState::Moves,
        current_turn: turn,
        tmg_store_id: STORE,
        winner: 0,
        steps,
    }
}

#[test]
fn fresh_session_is_open_for_registration() {
    let b = Battle::new(STORE);
    assert_eq!(b.state, BattleState::Registration);
    assert!(b.players.is_empty());
    assert_eq!(b.current_turn, 0);
    assert_eq!(b.tmg_store_id, STORE);
    assert_eq!(b.winner, 0);
    assert_eq!(b.steps, 0);
}

#[test]
fn register_rolls_power_energy_and_side() {
    let mut b = Battle::new(STORE);
    let r = b.register(
        100,
        10,
        vec![1, 3],
        // 0xFFFF rolls 65535 % 10000 = 5535; stored power is 10000 - 5535
        &draw(0xFF, 0xFF),
        // 0x4E1F rolls 19999
        &draw(0x4E, 0x1F),
        // odd coin: Right
        &draw(1, 0),
        &draw(0, 0),
    );
    assert_eq!(r, Ok(BattleEvent::Registered { tmg_id: 100 }));
    assert_eq!(b.state, BattleState::Registration);
    assert_eq!(
        b.players,
        vec![player(10, 100, 19999, 4465, vec![1, 3], Side::Right)]
    );
}

#[test]
fn two_registrations_open_moves_and_a_third_is_rejected() {
    let mut b = Battle::new(STORE);
    let zeros = draw(0, 0);
    assert!(b.register(100, 10, vec![], &zeros, &zeros, &zeros, &zeros).is_ok());
    assert_eq!(b.state, BattleState::Registration);
    let r2 = b.register(200, 20, vec![], &zeros, &zeros, &zeros, &draw(3, 0));
    assert_eq!(r2, Ok(BattleEvent::Registered { tmg_id: 200 }));
    assert_eq!(b.state, BattleState::Moves);
    assert_eq!(b.players.len(), 2);
    assert_eq!(b.current_turn, 1);
    let before = b.clone();
    let r3 = b.register(300, 30, vec![], &zeros, &zeros, &zeros, &zeros);
    assert_eq!(r3, Err(BattleError::GameAlreadyStarted));
    assert_eq!(b, before);
}

#[test]
fn move_outside_moves_state_is_rejected_and_changes_nothing() {
    let mut b = Battle::new(STORE);
    let before = b.clone();
    let r = b.make_move(10, Side::Left, MoveAction::Attack);
    assert_eq!(r, Err(BattleError::NotInMovesState));
    assert_eq!(b, before);

    let zeros = draw(0, 0);
    b.register(100, 10, vec![], &zeros, &zeros, &zeros, &zeros).unwrap();
    let before = b.clone();
    let r = b.make_move(10, Side::Left, MoveAction::Defend);
    assert_eq!(r, Err(BattleError::NotInMovesState));
    assert_eq!(b, before);
}

#[test]
fn move_by_wrong_sender_is_rejected_whatever_the_action() {
    let p0 = player(10, 100, 9000, 5000, vec![], Side::Left);
    let p1 = player(20, 200, 9000, 5000, vec![], Side::Left);
    let mut b = battle_in_moves(p0, p1, 0, 0);
    let before = b.clone();
    for action in [MoveAction::Attack, MoveAction::Defend, MoveAction::Other] {
        // 20 owns the other seat; 30 owns nothing: neither may move now
        for sender in [20, 30] {
            let r = b.make_move(sender, Side::Left, action);
            assert_eq!(r, Err(BattleError::NotYourTurn));
            assert_eq!(b, before);
        }
    }
}

#[test]
fn matched_attack_reduces_energy_by_the_exact_damage() {
    // silver sword: multiplier 8; damage 8 * 4465 = 35720
    let p0 = player(10, 100, 10000, 4465, vec![3], Side::Left);
    let p1 = player(20, 200, 50000, 3000, vec![], Side::Left);
    let mut b = battle_in_moves(p0, p1, 0, 0);
    let m = b.make_move(10, Side::Left, MoveAction::Attack).unwrap();
    assert_eq!(m.reply, BattleEvent::MoveMade);
    assert_eq!(m.notification, Some(BattleEvent::SuccessfullyAttacked));
    assert_eq!(m.schedule, None);
    assert_eq!(b.players[1].energy, 50000 - 35720);
    assert_eq!(b.players[0].energy, 10000);
    assert_eq!(b.state, BattleState::Moves);
    assert_eq!(b.current_turn, 1);
    assert_eq!(b.steps, 1);
}

#[test]
fn lethal_attack_floors_energy_at_zero_and_ends_the_game() {
    let p0 = player(10, 100, 10000, 4465, vec![3], Side::Left);
    let p1 = player(20, 200, 1000, 3000, vec![], Side::Left);
    let mut b = battle_in_moves(p0, p1, 0, 2);
    let m = b.make_move(10, Side::Left, MoveAction::Attack).unwrap();
    assert_eq!(m.reply, BattleEvent::GameIsOver);
    assert_eq!(m.notification, Some(BattleEvent::SuccessfullyAttacked));
    assert_eq!(m.schedule, None);
    assert_eq!(b.state, BattleState::GameIsOver);
    assert_eq!(b.winner, 100);
    assert!(b.players.is_empty());
    // the step count stays where the finished round left it
    assert_eq!(b.steps, 2);
}

#[test]
fn missed_attack_only_turns_the_mover() {
    let p0 = player(10, 100, 9000, 5000, vec![1], Side::Left);
    let p1 = player(20, 200, 9000, 5000, vec![], Side::Right);
    let mut b = battle_in_moves(p0, p1, 0, 0);
    let m = b.make_move(10, Side::Left, MoveAction::Attack).unwrap();
    assert_eq!(m.reply, BattleEvent::MoveMade);
    assert_eq!(m.notification, Some(BattleEvent::AttackMissed));
    assert_eq!(b.players[0].actual_side, Side::Left);
    assert_eq!(b.players[0].energy, 9000);
    assert_eq!(b.players[1].energy, 9000);
    assert_eq!(b.current_turn, 1);
}

#[test]
fn matched_defence_heals_and_saturates_at_the_maximum() {
    // silver shield: protection 8000; 60000 + 8000 saturates at 65535
    let p0 = player(10, 100, 60000, 5000, vec![3], Side::Right);
    let p1 = player(20, 200, 9000, 5000, vec![], Side::Left);
    let mut b = battle_in_moves(p0, p1, 0, 1);
    let m = b.make_move(10, Side::Left, MoveAction::Defend).unwrap();
    assert_eq!(m.reply, BattleEvent::MoveMade);
    assert_eq!(m.notification, Some(BattleEvent::SuccessfullyDefended));
    assert_eq!(b.players[0].energy, u16::MAX);
    assert_eq!(b.players[0].actual_side, Side::Left);
    assert_eq!(b.players[1].energy, 9000);
    assert_eq!(b.steps, 2);
}

#[test]
fn matched_defence_heals_by_the_exact_protection() {
    let p0 = player(10, 100, 9000, 5000, vec![2], Side::Right);
    let p1 = player(20, 200, 9000, 5000, vec![], Side::Left);
    let mut b = battle_in_moves(p0, p1, 0, 0);
    let m = b.make_move(10, Side::Left, MoveAction::Defend).unwrap();
    assert_eq!(m.notification, Some(BattleEvent::SuccessfullyDefended));
    assert_eq!(b.players[0].energy, 9000 + 5000);
}

#[test]
fn mismatched_defence_heals_nothing_but_is_acknowledged() {
    let p0 = player(10, 100, 9000, 5000, vec![3], Side::Left);
    let p1 = player(20, 200, 9000, 5000, vec![], Side::Right);
    let mut b = battle_in_moves(p0, p1, 0, 0);
    let m = b.make_move(10, Side::Left, MoveAction::Defend).unwrap();
    assert_eq!(m.notification, Some(BattleEvent::SuccessfullyDefended));
    assert_eq!(b.players[0].energy, 9000);
    assert_eq!(b.players[0].actual_side, Side::Left);
    assert_eq!(b.current_turn, 1);
}

#[test]
fn unrecognised_action_has_no_combat_effect_but_consumes_the_turn() {
    let p0 = player(10, 100, 9000, 5000, vec![3], Side::Left);
    let p1 = player(20, 200, 9000, 5000, vec![], Side::Left);
    let mut b = battle_in_moves(p0.clone(), p1.clone(), 0, 0);
    let m = b.make_move(10, Side::Right, MoveAction::Other).unwrap();
    assert_eq!(m.reply, BattleEvent::MoveMade);
    assert_eq!(m.notification, None);
    assert_eq!(b.players[0], p0);
    assert_eq!(b.players[1], p1);
    assert_eq!(b.current_turn, 1);
    assert_eq!(b.steps, 1);
}

#[test]
fn the_fifth_move_of_a_round_goes_to_waiting() {
    // mismatched attacks so that nobody is hurt and the budget decides
    let p0 = player(10, 100, 9000, 5000, vec![], Side::Left);
    let p1 = player(20, 200, 9000, 5000, vec![], Side::Right);
    let mut b = battle_in_moves(p0, p1, 0, 0);
    let senders = [10, 20, 10, 20];
    let sides = [Side::Left, Side::Right, Side::Left, Side::Right];
    for i in 0..4 {
        let m = b.make_move(senders[i], sides[i], MoveAction::Attack).unwrap();
        assert_eq!(m.reply, BattleEvent::MoveMade);
        assert_eq!(m.schedule, None);
        assert_eq!(b.steps as usize, i + 1);
        assert_eq!(b.state, BattleState::Moves);
    }
    let m = b.make_move(10, Side::Left, MoveAction::Attack).unwrap();
    assert_eq!(m.reply, BattleEvent::GoToWaitingState);
    assert_eq!(
        m.schedule,
        Some(ScheduledUpdate { delay: TIME_FOR_UPDATE, gas: GAS_AMOUNT })
    );
    assert_eq!(b.state, BattleState::Waiting);
    assert_eq!(b.steps, 0);
    // the turn is re-drawn only by the refresh that follows
    assert_eq!(b.current_turn, 0);
}

#[test]
fn update_info_must_come_from_the_program_itself() {
    let p0 = player(10, 100, 9000, 5000, vec![], Side::Left);
    let p1 = player(20, 200, 9000, 5000, vec![], Side::Right);
    let mut b = battle_in_moves(p0, p1, 0, 0);
    b.state = BattleState::Waiting;
    let before = b.clone();
    let program_id = 99;
    let r = b.update_info(10, program_id, vec![], vec![], &draw(0, 0));
    assert_eq!(r, Err(BattleError::NotFromSelf));
    assert_eq!(b, before);
}

#[test]
fn update_info_outside_waiting_is_rejected() {
    let p0 = player(10, 100, 9000, 5000, vec![], Side::Left);
    let p1 = player(20, 200, 9000, 5000, vec![], Side::Right);
    let mut b = battle_in_moves(p0, p1, 0, 0);
    let before = b.clone();
    let r = b.update_info(99, 99, vec![], vec![], &draw(0, 0));
    assert_eq!(r, Err(BattleError::NotInWaitingState));
    assert_eq!(b, before);
}

#[test]
fn update_info_refreshes_attributes_and_redraws_the_turn() {
    let p0 = player(10, 100, 9000, 5000, vec![1], Side::Left);
    let p1 = player(20, 200, 8000, 4000, vec![], Side::Right);
    let mut b = battle_in_moves(p0, p1, 0, 0);
    b.state = BattleState::Waiting;
    let r = b.update_info(99, 99, vec![2], vec![3, 1], &draw(5, 0));
    assert_eq!(r, Ok(BattleEvent::InfoUpdated));
    assert_eq!(b.state, BattleState::Moves);
    assert_eq!(b.current_turn, 1);
    assert_eq!(b.players[0].attributes, vec![2]);
    assert_eq!(b.players[1].attributes, vec![3, 1]);
    // everything else about the players is kept
    assert_eq!(b.players[0].energy, 9000);
    assert_eq!(b.players[1].energy, 8000);
    assert_eq!(b.players[0].actual_side, Side::Left);
}

#[test]
fn reset_is_rejected_unless_the_game_is_over() {
    let mut b = Battle::new(STORE);
    let before = b.clone();
    assert_eq!(b.reset_contract(), Err(BattleError::GameNotOver));
    assert_eq!(b, before);

    let p0 = player(10, 100, 9000, 5000, vec![], Side::Left);
    let p1 = player(20, 200, 9000, 5000, vec![], Side::Right);
    let mut b = battle_in_moves(p0, p1, 0, 0);
    let before = b.clone();
    assert_eq!(b.reset_contract(), Err(BattleError::GameNotOver));
    assert_eq!(b, before);
}

#[test]
fn reset_reopens_registration_and_keeps_the_stale_winner() {
    let mut b = Battle {
        players: vec![],
        state: BattleState::GameIsOver,
        current_turn: 1,
        tmg_store_id: STORE,
        winner: 100,
        steps: 2,
    };
    let r = b.reset_contract();
    assert_eq!(r, Ok(BattleEvent::RestartedContract));
    assert_eq!(b.state, BattleState::Registration);
    assert!(b.players.is_empty());
    assert_eq!(b.winner, 100);
    assert_eq!(b.steps, 2);
}

#[test]
fn a_full_game_from_registration_to_reset() {
    let mut b = Battle::new(STORE);
    let zeros = draw(0, 0);
    // both roll the floor replacements: power 10000 - 5000, energy 10000
    b.register(100, 10, vec![], &zeros, &zeros, &zeros, &zeros).unwrap();
    b.register(200, 20, vec![], &zeros, &zeros, &zeros, &zeros).unwrap();
    assert_eq!(b.state, BattleState::Moves);
    assert_eq!(b.current_turn, 0);
    // both face Left; every attack lands for 1 * 5000
    assert_eq!(b.players[0].power, 5000);
    assert_eq!(b.players[1].energy, 10000);
    b.make_move(10, Side::Left, MoveAction::Attack).unwrap();
    assert_eq!(b.players[1].energy, 5000);
    b.make_move(20, Side::Left, MoveAction::Attack).unwrap();
    assert_eq!(b.players[0].energy, 5000);
    let m = b.make_move(10, Side::Left, MoveAction::Attack).unwrap();
    assert_eq!(m.reply, BattleEvent::GameIsOver);
    assert_eq!(b.state, BattleState::GameIsOver);
    assert_eq!(b.winner, 100);
    assert_eq!(b.reset_contract(), Ok(BattleEvent::RestartedContract));
    assert_eq!(b.state, BattleState::Registration);
    assert!(b.players.is_empty());
}
