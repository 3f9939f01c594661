use vstd::prelude::*;

verus! {

/// Stats are reduced modulo this ceiling.
pub const MAX_POWER: u16 = 10_000;

/// A reduced draw below this floor is replaced by the midpoint.
pub const MIN_POWER: u16 = 3_000;

/// The value that replaces a reduced draw below the floor.
pub const MID_POWER: u16 = MAX_POWER / 2;

/// The seat picked by an entropy block whose first byte is `first`.
pub open spec fn seat_of(first: u8) -> u8 {
    first % 2
}

/// The big-endian 16-bit integer of two bytes.
pub open spec fn be_u16(hi: u8, lo: u8) -> int {
    hi as int * 256 + lo as int
}

/// The stat picked by an entropy block that starts with `hi`, `lo`: the
/// big-endian value reduced modulo the ceiling, with a value below the floor
/// replaced by the midpoint (never drawn again).
pub open spec fn stat_of(hi: u8, lo: u8) -> u16 {
    let v = be_u16(hi, lo) % (MAX_POWER as int);
    if v < MIN_POWER as int {
        MID_POWER
    } else {
        v as u16
    }
}

/// Picks the seat that moves first from a block of host entropy: the low bit
/// of its first byte.
pub fn get_turn(random: &[u8; 32]) -> (r: u8)
    ensures
        r == seat_of(random[0]),
        r < 2,
{
    random[0] % 2
}

/// Draws a stat from a block of host entropy.
pub fn generate_power(random: &[u8; 32]) -> (r: u16)
    ensures
        r == stat_of(random[0], random[1]),
        MIN_POWER <= r < MAX_POWER,
{
    let value: u32 = (random[0] as u32) * 256 + (random[1] as u32);
    let reduced: u32 = value % (MAX_POWER as u32);
    if reduced < MIN_POWER as u32 {
        MID_POWER
    } else {
        reduced as u16
    }
}

} // verus!
