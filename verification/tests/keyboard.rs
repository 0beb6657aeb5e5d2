use chip8::keys::key_transition;

#[test]
fn key_transition_maps_first_code() {
    let s = key_transition(0, 45, true).unwrap();
    assert_eq!(s.key, 0);
    assert!(s.pressed);
    assert_eq!(s.state, 1);
}

#[test]
fn key_transition_maps_last_code() {
    let s = key_transition(0, 47, true).unwrap();
    assert_eq!(s.key, 15);
    assert_eq!(s.state, 1 << 15);
}

#[test]
fn key_transition_toggles_a_set_bit_off() {
    let s = key_transition(0b1000_0001, 2, false).unwrap();
    assert_eq!(s.key, 1);
    assert!(!s.pressed);
    assert_eq!(s.state, 0b1000_0011);
    let s = key_transition(s.state, 2, false).unwrap();
    assert_eq!(s.state, 0b1000_0001);
}

#[test]
fn key_transition_ignores_unknown_codes() {
    assert!(key_transition(0, 999, true).is_none());
    assert!(key_transition(0xFFFF, 1, false).is_none());
}
