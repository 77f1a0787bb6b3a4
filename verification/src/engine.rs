//! Combat resolution: equipment tables, damage and protection arithmetic,
//! and the pure effect of one action on the two players.

use vstd::prelude::*;
use crate::types::{AttributeId, BattleEvent, MoveAction, Player, Side};

verus! {

/// Attack multiplier of the iron sword.
pub const IRON_SWORD_POWER: u16 = 2;
/// Attribute identifier of the iron sword.
pub const IRON_SWORD_ID: AttributeId = 1;

/// Attack multiplier of the bronze sword.
pub const BRONZE_SWORD_POWER: u16 = 5;
/// Attribute identifier of the bronze sword.
pub const BRONZE_SWORD_ID: AttributeId = 2;

/// Attack multiplier of the silver sword.
pub const SILVER_SWORD_POWER: u16 = 8;
/// Attribute identifier of the silver sword.
pub const SILVER_SWORD_ID: AttributeId = 3;

/// Protection amount of the iron shield.
pub const IRON_SHIELD_PROTECTION: u16 = 2000;
/// Attribute identifier of the iron shield.
pub const IRON_SHIELD_ID: AttributeId = 1;

/// Protection amount of the bronze shield.
pub const BRONZE_SHIELD_PROTECTION: u16 = 5000;
/// Attribute identifier of the bronze shield.
pub const BRONZE_SHIELD_ID: AttributeId = 2;

/// Protection amount of the silver shield.
pub const SILVER_SHIELD_PROTECTION: u16 = 8000;
/// Attribute identifier of the silver shield.
pub const SILVER_SHIELD_ID: AttributeId = 3;

/// The attack multiplier granted by an attribute set: the best sword wins
/// in the fixed order iron, bronze, silver; unequipped means 1.
pub open spec fn spec_sword_power(attrs: Seq<AttributeId>) -> u16 {
    if attrs.contains(IRON_SWORD_ID) {
        IRON_SWORD_POWER
    } else if attrs.contains(BRONZE_SWORD_ID) {
        BRONZE_SWORD_POWER
    } else if attrs.contains(SILVER_SWORD_ID) {
        SILVER_SWORD_POWER
    } else {
        1
    }
}

/// The protection granted by an attribute set: the first shield found in
/// the fixed order iron, bronze, silver; unequipped means 1.
pub open spec fn spec_shield_protection(attrs: Seq<AttributeId>) -> u16 {
    if attrs.contains(IRON_SHIELD_ID) {
        IRON_SHIELD_PROTECTION
    } else if attrs.contains(BRONZE_SHIELD_ID) {
        BRONZE_SHIELD_PROTECTION
    } else if attrs.contains(SILVER_SHIELD_ID) {
        SILVER_SHIELD_PROTECTION
    } else {
        1
    }
}

/// Subtraction clamped at 0.
pub open spec fn spec_saturating_sub_u16(a: u16, b: u16) -> u16 {
    if a >= b {
        (a - b) as u16
    } else {
        0
    }
}

/// Addition clamped at the largest representable energy.
pub open spec fn spec_saturating_add_u16(a: u16, b: u16) -> u16 {
    if a + b > u16::MAX {
        u16::MAX
    } else {
        (a + b) as u16
    }
}

/// The damage of one attack: sword multiplier times the mover's power,
/// clamped at the largest representable value.
pub open spec fn spec_damage(sword: u16, power: u16) -> u16 {
    if sword * power > u16::MAX {
        u16::MAX
    } else {
        (sword * power) as u16
    }
}

/// The pure effect of one move on the two players: the updated mover, the
/// updated opponent, and the notification sent to the mover.
///
/// An attack lands only when the chosen side equals the opponent's current
/// side; a defence heals the mover only under the same condition, but is
/// always acknowledged. An unrecognised action changes neither player and
/// sends nothing.
pub open spec fn spec_apply_action(
    mover: Player,
    opponent: Player,
    direction: Side,
    action: MoveAction,
) -> (Player, Player, Option<BattleEvent>) {
    match action {
        MoveAction::Attack => {
            let faced = Player { actual_side: direction, ..mover };
            if direction == opponent.actual_side {
                let damage = spec_damage(spec_sword_power(mover.attributes@), mover.power);
                let hit = Player {
                    energy: spec_saturating_sub_u16(opponent.energy, damage),
                    ..opponent
                };
                (faced, hit, Some(BattleEvent::SuccessfullyAttacked))
            } else {
                (faced, opponent, Some(BattleEvent::AttackMissed))
            }
        },
        MoveAction::Defend => {
            let faced = Player { actual_side: direction, ..mover };
            if direction == opponent.actual_side {
                let healed = Player {
                    energy: spec_saturating_add_u16(
                        mover.energy,
                        spec_shield_protection(mover.attributes@),
                    ),
                    ..faced
                };
                (healed, opponent, Some(BattleEvent::SuccessfullyDefended))
            } else {
                (faced, opponent, Some(BattleEvent::SuccessfullyDefended))
            }
        },
        MoveAction::Other => (mover, opponent, None),
    }
}

/// Whether an attribute set contains the given identifier.
pub fn contains_attribute(attributes: &Vec<AttributeId>, id: AttributeId) -> (r: bool)
    ensures
        r == attributes@.contains(id),
{
    let mut i: usize = 0;
    while i < attributes.len()
        invariant
            i <= attributes@.len(),
            forall|j: int| 0 <= j < i ==> attributes@[j] != id,
        decreases attributes@.len() - i,
    {
        if attributes[i] == id {
            return true;
        }
        i = i + 1;
    }
    false
}

/// The attack multiplier the mover's equipment grants.
pub fn sword_power(attributes: &Vec<AttributeId>) -> (r: u16)
    ensures
        r == spec_sword_power(attributes@),
        1 <= r <= SILVER_SWORD_POWER,
{
    if contains_attribute(attributes, IRON_SWORD_ID) {
        IRON_SWORD_POWER
    } else if contains_attribute(attributes, BRONZE_SWORD_ID) {
        BRONZE_SWORD_POWER
    } else if contains_attribute(attributes, SILVER_SWORD_ID) {
        SILVER_SWORD_POWER
    } else {
        1
    }
}

/// The protection the mover's equipment grants.
pub fn shield_protection(attributes: &Vec<AttributeId>) -> (r: u16)
    ensures
        r == spec_shield_protection(attributes@),
        1 <= r <= SILVER_SHIELD_PROTECTION,
{
    if contains_attribute(attributes, IRON_SHIELD_ID) {
        IRON_SHIELD_PROTECTION
    } else if contains_attribute(attributes, BRONZE_SHIELD_ID) {
        BRONZE_SHIELD_PROTECTION
    } else if contains_attribute(attributes, SILVER_SHIELD_ID) {
        SILVER_SHIELD_PROTECTION
    } else {
        1
    }
}

/// The clamped damage of one attack.
pub fn attack_damage(sword: u16, power: u16) -> (damage: u16)
    ensures
        damage == spec_damage(sword, power),
{
    match sword.checked_mul(power) {
        Some(product) => product,
        None => u16::MAX,
    }
}

} // verus!
