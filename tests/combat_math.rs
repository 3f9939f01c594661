use battle::{generate_power, get_turn, resolve_move, MID_POWER};

fn block(hi: u8, lo: u8) -> [u8; 32] {
    let mut b = [0u8; 32];
    b[0] = hi;
    b[1] = lo;
    b
}

#[test]
fn turn_is_low_bit_of_first_byte() {
    assert_eq!(get_turn(&block(0, 1)), 0);
    assert_eq!(get_turn(&block(3, 0)), 1);
    assert_eq!(get_turn(&block(254, 255)), 0);
    assert_eq!(get_turn(&[7u8; 32]), 1);
}

#[test]
fn power_in_range_is_kept() {
    // 0x0BB8 = 3000, the floor itself
    assert_eq!(generate_power(&block(0x0B, 0xB8)), 3000);
    // 0x270F = 9999
    assert_eq!(generate_power(&block(0x27, 0x0F)), 9999);
    // 0xFFFF = 65535, reduced to 5535
    assert_eq!(generate_power(&block(0xFF, 0xFF)), 5535);
    // 0x1771 = 6001
    assert_eq!(generate_power(&block(0x17, 0x71)), 6001);
}

#[test]
fn power_below_floor_becomes_midpoint() {
    assert_eq!(MID_POWER, 5000);
    // 0x0BB7 = 2999, just under the floor
    assert_eq!(generate_power(&block(0x0B, 0xB7)), MID_POWER);
    assert_eq!(generate_power(&block(0, 0)), MID_POWER);
    assert_eq!(generate_power(&block(0, 1)), MID_POWER);
    // 0x2710 = 10000, reduced to 0
    assert_eq!(generate_power(&block(0x27, 0x10)), MID_POWER);
    // 0x4E20 = 20000 + 2999 = 0x59D7, reduced to 2999
    assert_eq!(generate_power(&block(0x59, 0xD7)), MID_POWER);
}

#[test]
fn resolve_move_plain_power() {
    assert_eq!(resolve_move(3000, false, 9999), 6999);
    assert_eq!(resolve_move(1, false, 1), 0);
}

#[test]
fn resolve_move_weapon_multiplies() {
    assert_eq!(resolve_move(1, true, 5000), 1000);
    assert_eq!(resolve_move(1, true, 4001), 1);
}

#[test]
fn resolve_move_saturates_at_zero() {
    assert_eq!(resolve_move(3000, false, 2999), 0);
    assert_eq!(resolve_move(2, true, 7999), 0);
    assert_eq!(resolve_move(65535, true, 65535), 0);
    assert_eq!(resolve_move(0, true, 17), 17);
}
