//! Decoding of the bytes that the keyer sends by itself. Each byte stands
//! alone: its two top bits say what it is.

use vstd::prelude::*;

verus! {

/// Mask and pattern of a status byte: both top bits set.
pub const STATUS_BYTE: u8 = 0xc0;

/// Pattern of a status byte whose lowest bit follows the transmit key line.
pub const STATUS_WK2_BYTE: u8 = 0xc8;

/// Pattern of a speed-dial report under the mask of a status byte.
pub const SPEED_POT_BYTE: u8 = 0x80;

/// The bits of a speed-dial report that hold the dial's position.
pub const SPEED_MASK: u8 = 0x7f;

/// The bit of a key-line status byte that is set while the key is down.
pub const TX_KEY_MASK: u8 = 0x01;

/// Speed, in words per minute, at position zero of the speed dial.
pub const SPEED_POT_OFFSET: u8 = 13;

/// What one byte from the keyer says.
#[derive(Clone, Copy, Debug, PartialEq, Eq, Structural)]
pub enum Report {
    /// The transmit key line went down (`true`) or up.
    KeyLine(bool),
    /// A status byte, kept as it came.
    Status(u8),
    /// The speed dial was turned: the new speed in words per minute.
    SpeedPot(u8),
    /// A character echoed by the keyer.
    Echo(char),
}

/// A status byte: 0xC0 and above.
pub open spec fn is_status(byte: u8) -> bool {
    byte >= 0xc0
}

/// A report of the speed dial: 0x80 to 0xBF.
pub open spec fn is_speed_pot(byte: u8) -> bool {
    0x80 <= byte < 0xc0
}

/// An echoed character: below 0x80, so always ASCII.
pub open spec fn is_echo(byte: u8) -> bool {
    byte < 0x80
}

/// A status byte with bit 3 set: where the keyer's firmware reports the key
/// line, such a byte carries the line's state in its lowest bit.
pub open spec fn is_key_line(byte: u8) -> bool {
    is_status(byte) && (byte / 8) % 2 == 1
}

/// What `byte` says. With `key_line_mode` off every status byte is kept as
/// it came.
pub open spec fn decoded(byte: u8, key_line_mode: bool) -> Report {
    if is_status(byte) {
        if key_line_mode && is_key_line(byte) {
            Report::KeyLine(byte % 2 == 1)
        } else {
            Report::Status(byte)
        }
    } else if is_speed_pot(byte) {
        Report::SpeedPot((byte - 0x80 + SPEED_POT_OFFSET) as u8)
    } else {
        Report::Echo(byte as char)
    }
}

/// Decodes one byte from the keyer.
pub fn decode(byte: u8, key_line_mode: bool) -> (report: Report)
    ensures
        report == decoded(byte, key_line_mode),
{
    if byte & STATUS_BYTE == STATUS_BYTE {
        assert(byte & 0xc0 == 0xc0 <==> byte >= 0xc0) by (bit_vector);
        assert((byte & 0xc8 == 0xc8) <==> (byte >= 0xc0 && (byte / 8) % 2 == 1)) by (bit_vector);
        assert((byte & 0x01 > 0) <==> (byte % 2 == 1)) by (bit_vector);
        if key_line_mode && byte & STATUS_WK2_BYTE == STATUS_WK2_BYTE {
            Report::KeyLine(byte & TX_KEY_MASK > 0)
        } else {
            Report::Status(byte)
        }
    } else if byte & STATUS_BYTE == SPEED_POT_BYTE {
        assert(byte & 0xc0 == 0xc0 <==> byte >= 0xc0) by (bit_vector);
        assert(byte & 0xc0 == 0x80 <==> 0x80 <= byte < 0xc0) by (bit_vector);
        assert(byte & 0xc0 == 0x80 ==> byte & 0x7f == byte - 0x80) by (bit_vector);
        Report::SpeedPot((byte & SPEED_MASK) + SPEED_POT_OFFSET)
    } else {
        assert(byte & 0xc0 == 0xc0 <==> byte >= 0xc0) by (bit_vector);
        assert(byte & 0xc0 == 0x80 <==> 0x80 <= byte < 0xc0) by (bit_vector);
        Report::Echo(byte as char)
    }
}

/// Every byte belongs to exactly one of the three classes, and the class
/// alone decides which kind of report comes out.
pub proof fn lemma_decode_partition(byte: u8, key_line_mode: bool)
    ensures
        is_status(byte) || is_speed_pot(byte) || is_echo(byte),
        !(is_status(byte) && is_speed_pot(byte)),
        !(is_status(byte) && is_echo(byte)),
        !(is_speed_pot(byte) && is_echo(byte)),
        is_status(byte) <==> decoded(byte, key_line_mode) is KeyLine || decoded(
            byte,
            key_line_mode,
        ) is Status,
        is_speed_pot(byte) <==> decoded(byte, key_line_mode) is SpeedPot,
        is_echo(byte) <==> decoded(byte, key_line_mode) is Echo,
{
}

/// The classes by the bits of the byte: a status byte has its two top bits
/// set, a report of the speed dial the upper of them alone, an echoed
/// character has the top bit clear; a status byte reports the key line where
/// bit 3 is set as well, and then its lowest bit is the key line.
pub proof fn lemma_classes_by_bits(byte: u8)
    ensures
        is_status(byte) <==> byte & STATUS_BYTE == STATUS_BYTE,
        is_speed_pot(byte) <==> byte & STATUS_BYTE == SPEED_POT_BYTE,
        is_echo(byte) <==> byte & 0x80 == 0,
        is_key_line(byte) <==> byte & STATUS_WK2_BYTE == STATUS_WK2_BYTE,
        byte % 2 == 1 <==> byte & TX_KEY_MASK > 0,
        is_speed_pot(byte) ==> byte - 0x80 == byte & SPEED_MASK,
{
    assert(byte >= 0xc0 <==> byte & 0xc0 == 0xc0) by (bit_vector);
    assert(0x80 <= byte < 0xc0 <==> byte & 0xc0 == 0x80) by (bit_vector);
    assert(byte < 0x80 <==> byte & 0x80 == 0) by (bit_vector);
    assert((byte >= 0xc0 && (byte / 8) % 2 == 1) <==> byte & 0xc8 == 0xc8) by (bit_vector);
    assert(byte % 2 == 1 <==> byte & 0x01 > 0) by (bit_vector);
    assert(0x80 <= byte < 0xc0 ==> byte - 0x80 == byte & 0x7f) by (bit_vector);
}

} // verus!
