use keyjack::winkey::command::Command;
use keyjack::winkey::command::Mode;
use keyjack::winkey::command::{
    AUTOSPACE, CONTEST_SPACING, DEFAULT_SPEED, DISABLE_PADDLE_WATCHDOG, HIGH_BAUD,
    KEY_MODE_BUG, KEY_MODE_IAMBIC_A, KEY_MODE_IAMBIC_B, KEY_MODE_ULTIMATIC, LOW_BAUD, MAX_SPEED,
    MIN_SPEED, PADDLE_ECHO_BACK, PADDLE_SWAP, SERIAL_ECHOBACK,
};

fn sent(command: Command, extra: Option<Vec<u8>>) -> (Vec<u8>, usize) {
    let mut wire: Vec<u8> = Vec::new();
    let count = command.send(&mut wire, extra);
    (wire, count)
}

#[test]
fn constants_of_the_link_and_the_speed_dial() {
    assert_eq!(LOW_BAUD, 1200);
    assert_eq!(HIGH_BAUD, 115200);
    assert_eq!(MIN_SPEED, 13);
    assert_eq!(DEFAULT_SPEED, 30);
    assert_eq!(MAX_SPEED, 45);
}

#[test]
fn admin_commands_open_with_a_zero_byte() {
    assert_eq!(sent(Command::AdminHostOpen, None), (vec![0, 2], 2));
    assert_eq!(sent(Command::AdminHostClose, None), (vec![0, 3], 2));
    assert_eq!(sent(Command::AdminSetWk2Mode, None), (vec![0, 11], 2));
    assert_eq!(sent(Command::AdminLoadXmode, None), (vec![0, 15], 2));
    assert_eq!(sent(Command::AdminSetHighBaud, None), (vec![0, 17], 2));
    assert_eq!(sent(Command::GetValues, None), (vec![0, 7], 2));
}

#[test]
fn plain_commands_are_one_byte() {
    assert_eq!(sent(Command::SetWk2Mode, None), (vec![0x0e], 1));
    assert_eq!(sent(Command::Status, None), (vec![0x15], 1));
    assert_eq!(sent(Command::SetWpmSpeed, None), (vec![0x02], 1));
    assert_eq!(sent(Command::SetupSpeedPot, None), (vec![0x05], 1));
    assert_eq!(sent(Command::Null, None), (vec![0x13], 1));
}

#[test]
fn send_puts_the_parameters_behind_the_header() {
    assert_eq!(sent(Command::SetWpmSpeed, Some(vec![30])), (vec![0x02, 30], 2));
    assert_eq!(
        sent(Command::SetupSpeedPot, Some(vec![13, 32, 0])),
        (vec![0x05, 13, 32, 0], 4)
    );
    assert_eq!(sent(Command::AdminHostOpen, Some(vec![9, 8])), (vec![0, 2, 9, 8], 4));
}

#[test]
fn send_with_no_parameter_bytes_is_the_header() {
    assert_eq!(sent(Command::SetWpmSpeed, Some(Vec::new())), (vec![0x02], 1));
}

#[test]
fn send_keeps_what_is_on_the_wire() {
    let mut wire: Vec<u8> = vec![0xaa, 0xbb];
    let first = Command::AdminSetWk2Mode.send(&mut wire, None);
    let second = Command::SetWpmSpeed.send(&mut wire, Some(vec![30]));
    assert_eq!(first, 2);
    assert_eq!(second, 2);
    assert_eq!(wire, vec![0xaa, 0xbb, 0, 11, 0x02, 30]);
}

#[test]
fn send_takes_long_parameters() {
    let extra: Vec<u8> = (0..=255u8).collect();
    let (wire, count) = sent(Command::Null, Some(extra.clone()));
    assert_eq!(count, 257);
    assert_eq!(wire[0], 0x13);
    assert_eq!(&wire[1..], &extra[..]);
}

#[test]
fn mode_bits() {
    assert_eq!(DISABLE_PADDLE_WATCHDOG, 0x80);
    assert_eq!(PADDLE_ECHO_BACK, 0x40);
    assert_eq!(KEY_MODE_IAMBIC_B, 0x00);
    assert_eq!(KEY_MODE_IAMBIC_A, 0x10);
    assert_eq!(KEY_MODE_ULTIMATIC, 0x20);
    assert_eq!(KEY_MODE_BUG, 0x30);
    assert_eq!(PADDLE_SWAP, 0x08);
    assert_eq!(SERIAL_ECHOBACK, 0x04);
    assert_eq!(AUTOSPACE, 0x02);
    assert_eq!(CONTEST_SPACING, 0x01);
}

#[test]
fn mode_option_is_the_mode_byte() {
    assert_eq!(Mode(0x44).option(), Some(vec![0x44]));
    assert_eq!(Mode(0).option(), Some(vec![0]));
    assert_eq!(Mode(0xff).option(), Some(vec![0xff]));
}

#[test]
fn modes_are_combined_bit_by_bit() {
    let mode = Mode(PADDLE_ECHO_BACK) | Mode(KEY_MODE_IAMBIC_B) | Mode(SERIAL_ECHOBACK);
    assert_eq!(mode, Mode(0x44));
    assert_eq!(Mode(0x0f) | Mode(0x3c), Mode(0x3f));
    assert_eq!(Mode(KEY_MODE_IAMBIC_A) | Mode(KEY_MODE_ULTIMATIC), Mode(KEY_MODE_BUG));
}

#[test]
fn a_flag_is_in_a_combination_if_it_is_in_one_part() {
    let flags = [
        DISABLE_PADDLE_WATCHDOG,
        PADDLE_ECHO_BACK,
        KEY_MODE_IAMBIC_A,
        KEY_MODE_ULTIMATIC,
        PADDLE_SWAP,
        SERIAL_ECHOBACK,
        AUTOSPACE,
        CONTEST_SPACING,
    ];
    for a in 0..=255u8 {
        for b in [0x00u8, 0x44, 0x13, 0xa5, 0xff] {
            let both = Mode(a) | Mode(b);
            for flag in flags {
                assert_eq!(
                    both.contains(flag),
                    Mode(a).contains(flag) || Mode(b).contains(flag)
                );
            }
        }
    }
}

#[test]
fn contains_asks_for_every_bit_of_the_flag() {
    assert!(Mode(0x44).contains(PADDLE_ECHO_BACK));
    assert!(Mode(0x44).contains(SERIAL_ECHOBACK));
    assert!(!Mode(0x44).contains(PADDLE_SWAP));
    assert!(Mode(0x30).contains(KEY_MODE_BUG));
    assert!(!Mode(0x10).contains(KEY_MODE_BUG));
    assert!(Mode(0x00).contains(KEY_MODE_IAMBIC_B));
}

#[test]
fn the_mode_frame_of_a_session() {
    let mode = Mode(PADDLE_ECHO_BACK) | Mode(KEY_MODE_IAMBIC_B) | Mode(SERIAL_ECHOBACK);
    assert_eq!(sent(Command::SetWk2Mode, mode.option()), (vec![0x0e, 0x44], 2));
}
