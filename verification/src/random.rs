//! Derivation of power, energy, side and turn order from raw random bytes.
//!
//! The randomness source is a collaborator of the host: each call to it yields
//! a fresh 32-byte sequence. The functions here are the verified part of the
//! derivation — each one picks its offsets and modulus from one such sequence;
//! the modulus and threshold constants below are the single source of truth.

use vstd::prelude::*;
use crate::types::Side;

verus! {

/// Number of bytes one randomness draw supplies.
pub const DRAW_BYTES: usize = 32;

/// Exclusive upper bound of a raw power roll.
pub const MAX_POWER: u16 = 10_000;
/// Rolls below this floor are replaced by `MAX_POWER / 2`.
pub const MIN_POWER: u16 = 3_000;

/// Exclusive upper bound of a raw energy roll.
pub const MAX_ENERGY: u16 = 20_000;
/// Rolls below this floor are replaced by `MAX_ENERGY / 2`.
pub const MIN_ENERGY: u16 = 6_000;

/// The big-endian 16-bit value read from the first two bytes of a draw.
pub open spec fn spec_be_u16(hi: u8, lo: u8) -> int {
    hi * 256 + lo
}

/// The raw power roll: the leading 16-bit value reduced modulo `MAX_POWER`,
/// with rolls under `MIN_POWER` replaced by `MAX_POWER / 2`.
pub open spec fn spec_power_roll(hi: u8, lo: u8) -> u16 {
    let roll = spec_be_u16(hi, lo) % (MAX_POWER as int);
    if roll < MIN_POWER {
        MAX_POWER / 2
    } else {
        roll as u16
    }
}

/// The energy roll: the leading 16-bit value reduced modulo `MAX_ENERGY`,
/// with rolls under `MIN_ENERGY` replaced by `MAX_ENERGY / 2`.
pub open spec fn spec_energy_roll(hi: u8, lo: u8) -> u16 {
    let roll = spec_be_u16(hi, lo) % (MAX_ENERGY as int);
    if roll < MIN_ENERGY {
        MAX_ENERGY / 2
    } else {
        roll as u16
    }
}

/// The coin flip read from the first byte of a draw: 0 or 1.
pub open spec fn spec_coin(b: u8) -> u8 {
    (b % 2) as u8
}

/// The side a coin flip selects: 0 is `Left`, 1 is `Right`.
pub open spec fn spec_side_of(b: u8) -> Side {
    if spec_coin(b) == 0 {
        Side::Left
    } else {
        Side::Right
    }
}

/// Rolls a player's raw power from one randomness draw.
pub fn generate_power(random: &[u8; DRAW_BYTES]) -> (power: u16)
    ensures
        power == spec_power_roll(random@[0], random@[1]),
        MIN_POWER <= power < MAX_POWER,
{
    let hi = random[0];
    let lo = random[1];
    let value: u16 = (hi as u16) * 256 + (lo as u16);
    let roll: u16 = value % MAX_POWER;
    if roll < MIN_POWER {
        MAX_POWER / 2
    } else {
        roll
    }
}

/// Rolls a player's starting energy from one randomness draw.
pub fn generate_energy(random: &[u8; DRAW_BYTES]) -> (energy: u16)
    ensures
        energy == spec_energy_roll(random@[0], random@[1]),
        MIN_ENERGY <= energy < MAX_ENERGY,
{
    let hi = random[0];
    let lo = random[1];
    let value: u16 = (hi as u16) * 256 + (lo as u16);
    let roll: u16 = value % MAX_ENERGY;
    if roll < MIN_ENERGY {
        MAX_ENERGY / 2
    } else {
        roll
    }
}

/// Flips the coin that picks a turn index from one randomness draw.
pub fn get_turn(random: &[u8; DRAW_BYTES]) -> (turn: u8)
    ensures
        turn == spec_coin(random@[0]),
        turn < 2,
{
    random[0] % 2
}

/// Picks a player's starting side from one randomness draw.
pub fn pick_side(random: &[u8; DRAW_BYTES]) -> (side: Side)
    ensures
        side == spec_side_of(random@[0]),
{
    if random[0] % 2 == 0 {
        Side::Left
    } else {
        Side::Right
    }
}

} // verus!
