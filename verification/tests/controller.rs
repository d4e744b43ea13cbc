use nes_avsync::ControllerState;

fn none_held() -> ControllerState {
    ControllerState {
        a: false,
        b: false,
        start: false,
        select: false,
        up: false,
        down: false,
        left: false,
        right: false,
    }
}

#[test]
fn a_and_start() {
    let state = ControllerState::from_byte(0b0000_0101);
    assert!(state.a);
    assert!(state.start);
    assert!(!state.b);
    assert!(!state.select);
    assert!(!state.up);
    assert!(!state.down);
    assert!(!state.left);
    assert!(!state.right);
    assert_eq!(
        state,
        ControllerState {
            a: true,
            start: true,
            ..none_held()
        }
    );
}

#[test]
fn zero_holds_nothing() {
    assert_eq!(ControllerState::from_byte(0), none_held());
}

#[test]
fn all_bits_hold_everything() {
    let state = ControllerState::from_byte(0xFF);
    assert!(
        state.a
            && state.b
            && state.start
            && state.select
            && state.up
            && state.down
            && state.left
            && state.right
    );
}

#[test]
fn each_bit_is_one_button() {
    let held = none_held();
    assert_eq!(ControllerState::from_byte(1 << 0), ControllerState { a: true, ..held });
    assert_eq!(ControllerState::from_byte(1 << 1), ControllerState { b: true, ..held });
    assert_eq!(ControllerState::from_byte(1 << 2), ControllerState { start: true, ..held });
    assert_eq!(ControllerState::from_byte(1 << 3), ControllerState { select: true, ..held });
    assert_eq!(ControllerState::from_byte(1 << 4), ControllerState { up: true, ..held });
    assert_eq!(ControllerState::from_byte(1 << 5), ControllerState { down: true, ..held });
    assert_eq!(ControllerState::from_byte(1 << 6), ControllerState { left: true, ..held });
    assert_eq!(ControllerState::from_byte(1 << 7), ControllerState { right: true, ..held });
}

#[test]
fn every_byte_decodes_to_its_bits() {
    for mask in 0..=255u8 {
        let state = ControllerState::from_byte(mask);
        let flags = [
            state.a,
            state.b,
            state.start,
            state.select,
            state.up,
            state.down,
            state.left,
            state.right,
        ];
        for (n, flag) in flags.iter().enumerate() {
            assert_eq!(*flag, mask & (1 << n) != 0);
        }
    }
}

#[test]
fn no_two_bytes_decode_alike() {
    for a in 0..=255u8 {
        for b in 0..a {
            assert_ne!(ControllerState::from_byte(a), ControllerState::from_byte(b));
        }
    }
}
