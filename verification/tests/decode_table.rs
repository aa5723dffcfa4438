use chip8_core::decode::Jump;

fn action_of(op: u16) -> u8 {
    let j = Jump::new();
    j.get_action(op)
}

#[test]
fn exact_matches_win_over_catch_all() {
    // the two 16-bit exact entries stand ahead of every overlapping form
    assert_eq!(action_of(0x00E0), 1);
    assert_eq!(action_of(0x00EE), 2);
}

#[test]
fn decode_covers_every_opcode_family() {
    assert_eq!(action_of(0x1234), 3);
    assert_eq!(action_of(0x2345), 4);
    assert_eq!(action_of(0x3A7F), 5);
    assert_eq!(action_of(0x4A7F), 6);
    assert_eq!(action_of(0x5120), 7);
    assert_eq!(action_of(0x6A12), 8);
    assert_eq!(action_of(0x7A12), 9);
    assert_eq!(action_of(0x8120), 10);
    assert_eq!(action_of(0x8121), 11);
    assert_eq!(action_of(0x8122), 12);
    assert_eq!(action_of(0x8123), 13);
    assert_eq!(action_of(0x8124), 14);
    assert_eq!(action_of(0x8125), 15);
    assert_eq!(action_of(0x8126), 16);
    assert_eq!(action_of(0x8127), 17);
    assert_eq!(action_of(0x812E), 18);
    assert_eq!(action_of(0x9120), 19);
    assert_eq!(action_of(0xA123), 20);
    assert_eq!(action_of(0xB123), 21);
    assert_eq!(action_of(0xC123), 22);
    assert_eq!(action_of(0xD123), 23);
    assert_eq!(action_of(0xE19E), 24);
    assert_eq!(action_of(0xE1A1), 25);
    assert_eq!(action_of(0xF107), 26);
    assert_eq!(action_of(0xF10A), 27);
    assert_eq!(action_of(0xF115), 28);
    assert_eq!(action_of(0xF118), 29);
    assert_eq!(action_of(0xF11E), 30);
    assert_eq!(action_of(0xF129), 31);
    assert_eq!(action_of(0xF133), 32);
    assert_eq!(action_of(0xF155), 33);
    assert_eq!(action_of(0xF165), 34);
}

#[test]
fn unmatched_opcodes_hit_the_sentinel() {
    // no entry matches: the broad first entry demands an impossible pattern
    assert_eq!(action_of(0x5001), 35);
    assert_eq!(action_of(0x812F), 35);
    assert_eq!(action_of(0xE1FF), 35);
    assert_eq!(action_of(0xF1FF), 35);
    assert_eq!(action_of(0x0123), 35);
}

#[test]
fn first_match_is_by_table_order() {
    // 0x8126 also fits the later 8XY7 shape under a weaker reading; the
    // scan must stop at the lowest matching index
    let j = Jump::new();
    for op in [0x00E0u16, 0x00EE, 0x8001, 0xF00A] {
        let a = j.get_action(op);
        for earlier in 0..a {
            assert_ne!(j.mask[earlier as usize] & op, j.id[earlier as usize]);
        }
    }
}
