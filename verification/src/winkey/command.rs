//! Command frames sent to the keyer, and the mode byte that configures it.

use std::ops::BitOr;
use vstd::prelude::*;
use vstd::std_specs::ops::BitOrSpecImpl;

verus! {

/// Baud rate at which the keyer listens after power-up.
pub const LOW_BAUD: u32 = 1200;

/// Baud rate of the link once the keyer has been told to switch.
pub const HIGH_BAUD: u32 = 115200;

/// Speed, in words per minute, at the low end of the speed dial.
pub const MIN_SPEED: u8 = 13;

/// Speed, in words per minute, that the keyer is set to at start-up.
pub const DEFAULT_SPEED: u8 = 30;

/// Speed, in words per minute, at the high end of the speed dial.
pub const MAX_SPEED: u8 = 45;

/// The commands of the keyer that the host knows by name.
#[derive(Clone, Copy, Debug, PartialEq, Eq, Structural)]
pub enum Command {
    AdminHostOpen,
    AdminHostClose,
    AdminSetWk2Mode,
    AdminLoadXmode,
    AdminSetHighBaud,
    GetValues,
    SetWk2Mode,
    Status,
    SetWpmSpeed,
    SetupSpeedPot,
    Null,
}

/// The bytes of `extra`, or none where there are no parameters.
pub open spec fn parameters(extra: Option<Vec<u8>>) -> Seq<u8> {
    match extra {
        Some(bytes) => bytes@,
        None => Seq::empty(),
    }
}

impl Command {
    /// Administrative commands are announced by a zero byte.
    pub open spec fn is_admin(self) -> bool {
        match self {
            Command::AdminHostOpen => true,
            Command::AdminHostClose => true,
            Command::AdminSetWk2Mode => true,
            Command::AdminLoadXmode => true,
            Command::AdminSetHighBaud => true,
            Command::GetValues => true,
            _ => false,
        }
    }

    /// The byte that tells this command from the others of its class.
    pub open spec fn code(self) -> u8 {
        match self {
            Command::AdminHostOpen => 2,
            Command::AdminHostClose => 3,
            Command::AdminSetWk2Mode => 11,
            Command::AdminLoadXmode => 15,
            Command::AdminSetHighBaud => 17,
            Command::GetValues => 7,
            Command::SetWk2Mode => 0x0e,
            Command::Status => 0x15,
            Command::SetWpmSpeed => 0x02,
            Command::SetupSpeedPot => 0x05,
            Command::Null => 0x13,
        }
    }

    /// The one or two bytes that open a frame of this command.
    pub open spec fn header(self) -> Seq<u8> {
        if self.is_admin() {
            seq![0u8, self.code()]
        } else {
            seq![self.code()]
        }
    }

    /// The whole frame: the header, then the parameter bytes.
    pub open spec fn frame(self, extra: Seq<u8>) -> Seq<u8> {
        self.header() + extra
    }

    /// Appends the header of this command to `w`.
    fn put_header(self, w: &mut Vec<u8>)
        ensures
            final(w)@ == old(w)@ + self.header(),
    {
        match self {
            Command::AdminHostOpen => {
                w.push(0);
                w.push(2);
            },
            Command::AdminHostClose => {
                w.push(0);
                w.push(3);
            },
            Command::AdminSetWk2Mode => {
                w.push(0);
                w.push(11);
            },
            Command::AdminLoadXmode => {
                w.push(0);
                w.push(15);
            },
            Command::AdminSetHighBaud => {
                w.push(0);
                w.push(17);
            },
            Command::GetValues => {
                w.push(0);
                w.push(7);
            },
            Command::SetWk2Mode => w.push(0x0e),
            Command::Status => w.push(0x15),
            Command::SetWpmSpeed => w.push(0x02),
            Command::SetupSpeedPot => w.push(0x05),
            Command::Null => w.push(0x13),
        }
        assert(w@ =~= old(w)@ + self.header());
    }

    /// Writes the frame of this command, with the parameter bytes in `extra`,
    /// to the end of `w`, and returns the number of bytes written.
    pub fn send(self, w: &mut Vec<u8>, extra: Option<Vec<u8>>) -> (count: usize)
        ensures
            final(w)@ == old(w)@ + self.frame(parameters(extra)),
            count == self.frame(parameters(extra)).len(),
    {
        let before: usize = w.len();
        self.put_header(w);
        match extra {
            Some(bytes) => {
                let mut i: usize = 0;
                while i < bytes.len()
                    invariant
                        i <= bytes.len(),
                        w@ == old(w)@ + self.header() + bytes@.take(i as int),
                    decreases bytes.len() - i,
                {
                    w.push(bytes[i]);
                    i += 1;
                    assert(bytes@.take(i as int) =~= bytes@.take(i - 1).push(bytes@[i - 1]));
                    assert(w@ =~= old(w)@ + self.header() + bytes@.take(i as int));
                }
                assert(bytes@.take(i as int) =~= bytes@);
            },
            None => {},
        }
        assert(w@ =~= old(w)@ + self.frame(parameters(extra)));
        w.len() - before
    }
}

/// Mode bit: the paddle watchdog is switched off.
pub const DISABLE_PADDLE_WATCHDOG: u8 = 1 << 7;

/// Mode bit: what the paddles key is echoed back to the host.
pub const PADDLE_ECHO_BACK: u8 = 1 << 6;

/// Keying mode, bits 5 and 4: iambic B.
pub const KEY_MODE_IAMBIC_B: u8 = 0;

/// Keying mode, bits 5 and 4: iambic A.
pub const KEY_MODE_IAMBIC_A: u8 = 1 << 4;

/// Keying mode, bits 5 and 4: ultimatic.
pub const KEY_MODE_ULTIMATIC: u8 = 1 << 5;

/// Keying mode, bits 5 and 4: bug.
pub const KEY_MODE_BUG: u8 = (1 << 5) | (1 << 4);

/// Mode bit: the dit and dah paddles change places.
pub const PADDLE_SWAP: u8 = 1 << 3;

/// Mode bit: what the host sends is echoed back to it.
pub const SERIAL_ECHOBACK: u8 = 1 << 2;

/// Mode bit: automatic letter spacing.
pub const AUTOSPACE: u8 = 1 << 1;

/// Mode bit: contest word spacing.
pub const CONTEST_SPACING: u8 = 1 << 0;

/// The mode byte of the keyer: a set of named flags, each one bit or, for the
/// keying mode, a field of two bits. Modes are combined with `|`.
#[derive(Clone, Copy, Debug, PartialEq, Eq, Structural)]
pub struct Mode(pub u8);

impl Mode {
    /// The mode with the flags of both: what `|` computes.
    pub open spec fn union(self, other: Mode) -> Mode {
        Mode(self.0 | other.0)
    }

    /// Whether every bit of `flag` is set in this mode.
    pub open spec fn has(self, flag: u8) -> bool {
        self.0 & flag == flag
    }

    /// Whether every bit of `flag` is set in this mode.
    pub fn contains(&self, flag: u8) -> (yes: bool)
        ensures
            yes == self.has(flag),
    {
        self.0 & flag == flag
    }

    /// The mode byte as the parameter of a command.
    pub fn option(&self) -> (extra: Option<Vec<u8>>)
        ensures
            extra is Some,
            parameters(extra) == seq![self.0],
    {
        let mut bytes: Vec<u8> = Vec::new();
        bytes.push(self.0);
        assert(bytes@ =~= seq![self.0]);
        Some(bytes)
    }

    /// A single flag is set in a combination exactly if it is set in one of
    /// the two modes combined.
    pub proof fn lemma_union_has(self, other: Mode, bit: u8)
        requires
            bit < 8,
        ensures
            self.union(other).has(1u8 << bit) <==> self.has(1u8 << bit) || other.has(1u8 << bit),
    {
        let a = self.0;
        let b = other.0;
        assert(((a | b) & (1u8 << bit) == (1u8 << bit)) <==> (a & (1u8 << bit) == (1u8 << bit)) || (b
            & (1u8 << bit) == (1u8 << bit))) by (bit_vector)
            requires
                bit < 8,
        ;
    }
}

impl BitOr for Mode {
    type Output = Mode;

    fn bitor(self, other: Mode) -> (both: Mode) {
        Mode(self.0 | other.0)
    }
}

impl BitOrSpecImpl for Mode {
    open spec fn obeys_bitor_spec() -> bool {
        true
    }

    open spec fn bitor_req(self, other: Mode) -> bool {
        true
    }

    open spec fn bitor_spec(self, other: Mode) -> Mode {
        self.union(other)
    }
}

} // verus!
