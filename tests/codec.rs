use rollback_breakout::input::{decode, encode, input_direction, local_input, mirror, NetworkRole};

#[test]
fn encode_sets_one_bit_per_direction() {
    assert_eq!(encode(false, false), 0);
    assert_eq!(encode(true, false), 1);
    assert_eq!(encode(false, true), 2);
    assert_eq!(encode(true, true), 3);
}

#[test]
fn decode_inverts_encode_for_all_combinations() {
    for &(l, r) in &[(false, false), (true, false), (false, true), (true, true)] {
        assert_eq!(decode(encode(l, r)), (l, r));
    }
}

#[test]
fn mirroring_twice_round_trips() {
    for &(l, r) in &[(false, false), (true, false), (false, true), (true, true)] {
        let m = mirror(encode(l, r));
        assert_eq!(decode(m), (r, l));
        assert_eq!(decode(mirror(m)), (l, r));
    }
}

#[test]
fn decode_ignores_reserved_bits() {
    assert_eq!(decode(0b1111_0101), (true, false));
    assert_eq!(mirror(0b1111_0001), 2);
}

#[test]
fn host_input_is_mirrored_client_input_is_not() {
    assert_eq!(local_input(true, false, NetworkRole::Client), 1);
    assert_eq!(local_input(true, false, NetworkRole::Host), 2);
    assert_eq!(local_input(false, true, NetworkRole::Host), 1);
    assert_eq!(local_input(true, true, NetworkRole::Host), 3);
}

#[test]
fn direction_of_input_records() {
    assert_eq!(input_direction(0), 0);
    assert_eq!(input_direction(1), -1);
    assert_eq!(input_direction(2), 1);
    assert_eq!(input_direction(3), 0);
}

#[test]
fn button_text_per_role() {
    assert_eq!(NetworkRole::Host.to_button_text(), "Host a Game");
    assert_eq!(NetworkRole::Client.to_button_text(), "Join Game");
}
