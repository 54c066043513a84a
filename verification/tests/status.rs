use keyjack::winkey::status::decode;
use keyjack::winkey::status::Report;
use keyjack::winkey::status::{
    SPEED_MASK, SPEED_POT_BYTE, SPEED_POT_OFFSET, STATUS_BYTE, STATUS_WK2_BYTE, TX_KEY_MASK,
};

#[test]
fn masks_and_patterns() {
    assert_eq!(STATUS_BYTE, 0xc0);
    assert_eq!(STATUS_WK2_BYTE, 0xc8);
    assert_eq!(SPEED_POT_BYTE, 0x80);
    assert_eq!(SPEED_MASK, !(1u8 << 7));
    assert_eq!(TX_KEY_MASK, 0x01);
    assert_eq!(SPEED_POT_OFFSET, 13);
}

#[test]
fn key_line_status_with_the_key_up() {
    assert_eq!(decode(0xc8, true), Report::KeyLine(false));
}

#[test]
fn key_line_status_with_the_key_down() {
    assert_eq!(decode(0xc9, true), Report::KeyLine(true));
}

#[test]
fn key_line_status_ignores_the_other_low_bits() {
    assert_eq!(decode(0xcf, true), Report::KeyLine(true));
    assert_eq!(decode(0xce, true), Report::KeyLine(false));
    assert_eq!(decode(0xff, true), Report::KeyLine(true));
    assert_eq!(decode(0xf8, true), Report::KeyLine(false));
}

#[test]
fn status_without_bit_three_is_kept_as_it_came() {
    assert_eq!(decode(0xc0, true), Report::Status(0xc0));
    assert_eq!(decode(0xc1, true), Report::Status(0xc1));
    assert_eq!(decode(0xc7, true), Report::Status(0xc7));
    assert_eq!(decode(0xf7, true), Report::Status(0xf7));
}

#[test]
fn without_key_line_mode_every_status_is_kept_as_it_came() {
    assert_eq!(decode(0xc8, false), Report::Status(0xc8));
    assert_eq!(decode(0xc9, false), Report::Status(0xc9));
    assert_eq!(decode(0xc0, false), Report::Status(0xc0));
    assert_eq!(decode(0xff, false), Report::Status(0xff));
}

#[test]
fn speed_pot_adds_the_lowest_speed() {
    assert_eq!(decode(0x85, true), Report::SpeedPot(18));
    assert_eq!(decode(0x85, false), Report::SpeedPot(18));
    assert_eq!(decode(0x80, true), Report::SpeedPot(13));
    assert_eq!(decode(0xa0, true), Report::SpeedPot(45));
    assert_eq!(decode(0xbf, true), Report::SpeedPot(76));
}

#[test]
fn anything_else_is_an_echoed_character() {
    assert_eq!(decode(0x41, true), Report::Echo('A'));
    assert_eq!(decode(0x20, false), Report::Echo(' '));
    assert_eq!(decode(0x00, true), Report::Echo('\0'));
    assert_eq!(decode(0x7f, true), Report::Echo('\u{7f}'));
}

#[test]
fn every_byte_is_of_exactly_one_kind() {
    for mode in [false, true] {
        let mut status = 0;
        let mut speed = 0;
        let mut echo = 0;
        for byte in 0..=255u8 {
            let report = decode(byte, mode);
            let is_status = matches!(report, Report::KeyLine(_) | Report::Status(_));
            let is_speed = matches!(report, Report::SpeedPot(_));
            let is_echo = matches!(report, Report::Echo(_));
            assert_eq!(is_status as u8 + is_speed as u8 + is_echo as u8, 1);
            assert_eq!(is_status, byte & 0xc0 == 0xc0);
            assert_eq!(is_speed, byte & 0xc0 == 0x80);
            assert_eq!(is_echo, byte & 0x80 == 0);
            status += is_status as u32;
            speed += is_speed as u32;
            echo += is_echo as u32;
        }
        assert_eq!((status, speed, echo), (64, 64, 128));
    }
}

#[test]
fn every_byte_decodes_as_its_bits_say() {
    for byte in 0..=255u8 {
        let expected = if byte & 0xc0 == 0xc0 {
            if byte & 0xc8 == 0xc8 {
                Report::KeyLine(byte & 1 > 0)
            } else {
                Report::Status(byte)
            }
        } else if byte & 0xc0 == 0x80 {
            Report::SpeedPot((byte & 0x7f) + 13)
        } else {
            Report::Echo(byte as char)
        };
        assert_eq!(decode(byte, true), expected);
    }
}
