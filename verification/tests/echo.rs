use joyboot::echo::check_echo;
use joyboot::frame::{encode, CommandKind};

fn request() -> Vec<u8> {
    encode(1, CommandKind::Echo, 9, &[1, 2, 3, 4, 5, 6, 7])
}

#[test]
fn conforming_echo_passes() {
    assert!(check_echo(&request(), &[0x9f, 0, 2, 3, 4, 5, 6, 7]));
}

#[test]
fn echo_payload_is_compared_one_position_on() {
    assert!(!check_echo(&request(), &[0x9f, 0, 1, 2, 3, 4, 5, 6]));
    for position in 2..8usize {
        let mut response = [0x9f, 0, 2, 3, 4, 5, 6, 7];
        response[position] ^= 0x40;
        assert!(!check_echo(&request(), &response));
    }
}

#[test]
fn echo_first_payload_byte_is_not_compared() {
    let other = encode(1, CommandKind::Echo, 9, &[0xee, 2, 3, 4, 5, 6, 7]);
    assert!(check_echo(&other, &[0x9f, 0, 2, 3, 4, 5, 6, 7]));
}

#[test]
fn echo_needs_the_terminal_frame_type() {
    for frame_type in 0..15u8 {
        assert!(!check_echo(&request(), &[0x90 | frame_type, 0, 2, 3, 4, 5, 6, 7]));
    }
}

#[test]
fn echo_needs_the_sequence_number_of_the_request() {
    for seq in 0..16u8 {
        let response = [(seq << 4) | 0x0f, 0, 2, 3, 4, 5, 6, 7];
        assert_eq!(check_echo(&request(), &response), seq == 9);
    }
}

#[test]
fn echo_needs_status_zero() {
    for status in 1..=255u8 {
        assert!(!check_echo(&request(), &[0x9f, status, 2, 3, 4, 5, 6, 7]));
    }
}

#[test]
fn echo_needs_a_whole_request() {
    let whole = request();
    assert!(!check_echo(&whole[..8], &[0x9f, 0, 2, 3, 4, 5, 6, 7]));
    assert!(!check_echo(&[], &[0x9f, 0, 2, 3, 4, 5, 6, 7]));
    let mut long = whole.clone();
    long.push(0);
    assert!(!check_echo(&long, &[0x9f, 0, 2, 3, 4, 5, 6, 7]));
}
