use vstd::prelude::*;

verus! {

/// The identifier of an attribute held by a participant.
pub type AttributeId = u32;

/// The attribute that multiplies the damage of its holder.
pub const SWORD_ID: AttributeId = 42;

/// The damage multiplier of a holder of the weapon attribute.
pub const SWORD_POWER: u16 = 4_000;

/// The damage of one move.
pub open spec fn damage_of(attacker_power: u16, has_weapon: bool) -> int {
    let multiplier: int = if has_weapon {
        SWORD_POWER as int
    } else {
        1
    };
    multiplier * attacker_power as int
}

/// What is left of `vitality` after `damage`, never below zero.
pub open spec fn after_hit(vitality: u16, damage: int) -> u16 {
    if damage >= vitality as int {
        0
    } else {
        (vitality as int - damage) as u16
    }
}

/// The defender's vitality after one move of the attacker.
pub fn resolve_move(attacker_power: u16, has_weapon: bool, defender_vitality: u16) -> (r: u16)
    ensures
        r == after_hit(defender_vitality, damage_of(attacker_power, has_weapon)),
        defender_vitality < damage_of(attacker_power, has_weapon) ==> r == 0,
        r <= defender_vitality,
{
    let multiplier: u32 = if has_weapon {
        SWORD_POWER as u32
    } else {
        1
    };
    assert(multiplier * (attacker_power as u32) <= 4000 * 65535) by (nonlinear_arith)
        requires
            multiplier <= 4000,
            attacker_power <= 65535,
    ;
    let damage: u32 = multiplier * (attacker_power as u32);
    if damage >= defender_vitality as u32 {
        0
    } else {
        defender_vitality - (damage as u16)
    }
}

} // verus!
