//! The session with the keyer as a state machine without I/O: for each event
//! that the driver of the serial link reports, the next state and the one
//! thing the driver has to do next.

use crate::winkey::command::Command;
use crate::winkey::command::Mode;
use crate::winkey::command::DEFAULT_SPEED;
use crate::winkey::command::HIGH_BAUD;
use crate::winkey::command::KEY_MODE_IAMBIC_B;
use crate::winkey::command::LOW_BAUD;
use crate::winkey::command::MAX_SPEED;
use crate::winkey::command::MIN_SPEED;
use crate::winkey::command::PADDLE_ECHO_BACK;
use crate::winkey::command::SERIAL_ECHOBACK;
use crate::winkey::status::decoded;
use crate::winkey::status::is_key_line;
use crate::winkey::status::Report;
use vstd::prelude::*;

verus! {

/// The one firmware revision that this host speaks to.
pub const WINKEY_23: u8 = 23;

/// How long the host waits for the version byte, in milliseconds.
pub const VERSION_TIMEOUT_MS: u64 = 1000;

/// How long the keyer is given to change its baud rate, in milliseconds.
pub const SETTLE_MS: u64 = 400;

/// Why a session ended, or what went wrong while it was closed.
#[derive(Clone, Copy, Debug, PartialEq, Eq, Structural)]
pub enum Error {
    /// The link could not be opened with the settings asked for.
    DeviceOpenError,
    /// The keyer answered the handshake with this byte instead of its version.
    UnsupportedDeviceVersion(u8),
    /// The link could not be registered for readiness notifications.
    ReadinessRegistrationError,
    /// A read from the link failed, other than by having nothing to read.
    SerialReadError,
    /// A command could not be written while the session was set up.
    CommandSendError,
    /// The closing command could not be written. Reported, never returned.
    TeardownSendError,
}

#[derive(Clone, Copy, Debug, PartialEq, Eq, Structural)]
pub enum Parity {
    /// No parity bit.
    Off,
    Odd,
    Even,
}

/// Whether reads on the link wait for data.
#[derive(Clone, Copy, Debug, PartialEq, Eq, Structural)]
pub enum LinkMode {
    /// A read waits, but no longer than this.
    Blocking { timeout_ms: u64 },
    /// A read never waits; the link is polled for readiness.
    NonBlocking,
}

/// How the serial link is to be opened.
#[derive(Clone, Copy, Debug, PartialEq, Eq, Structural)]
pub struct LinkSettings {
    pub baud: u32,
    pub data_bits: u8,
    pub stop_bits: u8,
    pub parity: Parity,
    pub mode: LinkMode,
}

/// The four states of a session as seen from outside.
#[derive(Clone, Copy, Debug, PartialEq, Eq, Structural)]
pub enum Phase {
    Unopened,
    LowSpeedHandshake,
    HighSpeedActive,
    Closed,
}

/// Where exactly a session stands: which outcome the client is waiting for.
#[derive(Clone, Copy, Debug, PartialEq, Eq, Structural)]
pub enum Stage {
    Unopened,
    OpeningLow,
    SendingProtocolMode,
    SendingHostOpen,
    AwaitingVersion,
    SendingHighBaud,
    Settling,
    OpeningHigh,
    Registering,
    SendingMode,
    AnnouncingSpeed,
    SendingSpeed,
    SendingSpeedPot,
    Active,
    /// The closing command is on its way; `cause` is what ended the session.
    Closing { cause: Option<Error> },
    Closed,
}

/// What the driver reports back to the client.
#[derive(Clone, Copy, Debug, PartialEq, Eq, Structural)]
pub enum Event {
    /// The session is to be set up.
    Start,
    /// What the client asked for last has been done.
    Completed,
    /// What the client asked for last could not be done.
    Failed,
    /// The byte read in answer to `Action::ReadVersion`.
    Version(u8),
    /// The session is to end.
    Shutdown,
}

/// How one non-blocking read on the link ended.
#[derive(Debug, PartialEq, Eq)]
pub enum ReadOutcome {
    /// These bytes came, in this order.
    Data(Vec<u8>),
    /// Nothing more to read for now.
    WouldBlock,
    /// The read failed.
    Failed,
}

/// What the driver has to do next.
#[derive(Debug, PartialEq, Eq)]
pub enum Action {
    /// Nothing: the event meant nothing in the state it came in.
    Idle,
    /// Open the link, closing the one that is open, and report the outcome.
    Open(LinkSettings),
    /// Write these bytes to the link and report the outcome.
    Send(Vec<u8>),
    /// Read exactly one byte and report it as `Event::Version`.
    ReadVersion,
    /// Wait this many milliseconds, then report `Event::Completed`.
    Settle(u64),
    /// Register the link for readiness notifications and report the outcome.
    Register,
    /// Tell the operator this speed, in words per minute, then report
    /// `Event::Completed`.
    ReportSpeed(u8),
    /// The session is set up: from now on hand every read to `Client::read`.
    Ready,
    /// Hand these reports to the operator, then read again. There is one
    /// report at least.
    Deliver(Vec<Report>),
    /// The link is drained: wait for the next readiness notification.
    Wait,
    /// The session is over. `cause` goes to the caller; `teardown` is only
    /// reported.
    Closed { cause: Option<Error>, teardown: Option<Error> },
}

/// An `Action` with its bytes and reports as sequences.
pub enum ActionView {
    Idle,
    Open(LinkSettings),
    Send(Seq<u8>),
    ReadVersion,
    Settle(u64),
    Register,
    ReportSpeed(u8),
    Ready,
    Deliver(Seq<Report>),
    Wait,
    Closed { cause: Option<Error>, teardown: Option<Error> },
}

impl View for Action {
    type V = ActionView;

    open spec fn view(&self) -> ActionView {
        match *self {
            Action::Idle => ActionView::Idle,
            Action::Open(link) => ActionView::Open(link),
            Action::Send(bytes) => ActionView::Send(bytes@),
            Action::ReadVersion => ActionView::ReadVersion,
            Action::Settle(millis) => ActionView::Settle(millis),
            Action::Register => ActionView::Register,
            Action::ReportSpeed(wpm) => ActionView::ReportSpeed(wpm),
            Action::Ready => ActionView::Ready,
            Action::Deliver(reports) => ActionView::Deliver(reports@),
            Action::Wait => ActionView::Wait,
            Action::Closed { cause, teardown } => ActionView::Closed { cause, teardown },
        }
    }
}

/// The state of a client: its stage and what it last learnt from the keyer.
pub struct ClientView {
    pub stage: Stage,
    /// Whether status bytes with bit 3 set are read as the key line.
    pub key_line_mode: bool,
    /// The last status byte that was kept as it came.
    pub status: u8,
    /// The last state of the key line that the keyer reported.
    pub key_down: bool,
    /// The speed last configured or dialled, in words per minute.
    pub speed: u8,
}

/// The link as the keyer expects it after power-up.
pub open spec fn low_speed_link() -> LinkSettings {
    LinkSettings {
        baud: LOW_BAUD,
        data_bits: 8,
        stop_bits: 2,
        parity: Parity::Off,
        mode: LinkMode::Blocking { timeout_ms: VERSION_TIMEOUT_MS },
    }
}

/// The link after the keyer has switched to its high baud rate.
pub open spec fn high_speed_link() -> LinkSettings {
    LinkSettings {
        baud: HIGH_BAUD,
        data_bits: 8,
        stop_bits: 2,
        parity: Parity::Off,
        mode: LinkMode::NonBlocking,
    }
}

/// The mode that the keyer is put in: paddle echo, iambic B, serial echo.
pub open spec fn session_mode() -> Mode {
    Mode(PADDLE_ECHO_BACK).union(Mode(KEY_MODE_IAMBIC_B)).union(Mode(SERIAL_ECHOBACK))
}

/// The range of the speed dial: its lowest speed, its span, and a zero.
pub open spec fn speed_pot_range() -> Seq<u8> {
    seq![MIN_SPEED, (MAX_SPEED - MIN_SPEED) as u8, 0u8]
}

/// The state in which every client starts.
pub open spec fn initial(key_line_mode: bool) -> ClientView {
    ClientView {
        stage: Stage::Unopened,
        key_line_mode,
        status: 0,
        key_down: false,
        speed: DEFAULT_SPEED,
    }
}

/// The phase that a stage belongs to.
pub open spec fn phase_of(stage: Stage) -> Phase {
    match stage {
        Stage::Unopened => Phase::Unopened,
        Stage::OpeningLow => Phase::LowSpeedHandshake,
        Stage::SendingProtocolMode => Phase::LowSpeedHandshake,
        Stage::SendingHostOpen => Phase::LowSpeedHandshake,
        Stage::AwaitingVersion => Phase::LowSpeedHandshake,
        Stage::SendingHighBaud => Phase::LowSpeedHandshake,
        Stage::Settling => Phase::LowSpeedHandshake,
        Stage::OpeningHigh => Phase::HighSpeedActive,
        Stage::Registering => Phase::HighSpeedActive,
        Stage::SendingMode => Phase::HighSpeedActive,
        Stage::AnnouncingSpeed => Phase::HighSpeedActive,
        Stage::SendingSpeed => Phase::HighSpeedActive,
        Stage::SendingSpeedPot => Phase::HighSpeedActive,
        Stage::Active => Phase::HighSpeedActive,
        Stage::Closing { .. } => Phase::Closed,
        Stage::Closed => Phase::Closed,
    }
}

/// Whether the keyer has been opened over the registered link, so that it is
/// owed a closing command when the session ends.
pub open spec fn has_session(stage: Stage) -> bool {
    match stage {
        Stage::SendingMode => true,
        Stage::AnnouncingSpeed => true,
        Stage::SendingSpeed => true,
        Stage::SendingSpeedPot => true,
        Stage::Active => true,
        _ => false,
    }
}

/// What `Event::Failed` means in a stage, where it means anything.
pub open spec fn failure_in(stage: Stage) -> Option<Error> {
    match stage {
        Stage::OpeningLow => Some(Error::DeviceOpenError),
        Stage::SendingProtocolMode => Some(Error::CommandSendError),
        Stage::SendingHostOpen => Some(Error::CommandSendError),
        Stage::AwaitingVersion => Some(Error::SerialReadError),
        Stage::SendingHighBaud => Some(Error::CommandSendError),
        Stage::OpeningHigh => Some(Error::DeviceOpenError),
        Stage::Registering => Some(Error::ReadinessRegistrationError),
        Stage::SendingMode => Some(Error::CommandSendError),
        Stage::SendingSpeed => Some(Error::CommandSendError),
        Stage::SendingSpeedPot => Some(Error::CommandSendError),
        _ => None,
    }
}

/// The client in another stage, all else unchanged.
pub open spec fn at(c: ClientView, stage: Stage) -> ClientView {
    ClientView { stage, ..c }
}

/// The event is ignored.
pub open spec fn ignored(c: ClientView) -> (ClientView, ActionView) {
    (c, ActionView::Idle)
}

/// The session ends for `cause`. Where the keyer is owed a closing command
/// it is sent first; else the session is over at once.
pub open spec fn ended(c: ClientView, cause: Option<Error>) -> (ClientView, ActionView) {
    if has_session(c.stage) {
        (
            at(c, Stage::Closing { cause }),
            ActionView::Send(Command::AdminHostClose.frame(Seq::empty())),
        )
    } else {
        (at(c, Stage::Closed), ActionView::Closed { cause, teardown: None })
    }
}

/// What follows when the driver reports that the last action was done.
pub open spec fn completed(c: ClientView) -> (ClientView, ActionView) {
    match c.stage {
        Stage::OpeningLow => (
            at(c, Stage::SendingProtocolMode),
            ActionView::Send(Command::AdminSetWk2Mode.frame(Seq::empty())),
        ),
        Stage::SendingProtocolMode => (
            at(c, Stage::SendingHostOpen),
            ActionView::Send(Command::AdminHostOpen.frame(Seq::empty())),
        ),
        Stage::SendingHostOpen => (at(c, Stage::AwaitingVersion), ActionView::ReadVersion),
        Stage::SendingHighBaud => (at(c, Stage::Settling), ActionView::Settle(SETTLE_MS)),
        Stage::Settling => (at(c, Stage::OpeningHigh), ActionView::Open(high_speed_link())),
        Stage::OpeningHigh => (at(c, Stage::Registering), ActionView::Register),
        Stage::Registering => (
            at(c, Stage::SendingMode),
            ActionView::Send(Command::SetWk2Mode.frame(seq![session_mode().0])),
        ),
        Stage::SendingMode => (
            at(c, Stage::AnnouncingSpeed),
            ActionView::ReportSpeed(DEFAULT_SPEED),
        ),
        Stage::AnnouncingSpeed => (
            ClientView { stage: Stage::SendingSpeed, speed: DEFAULT_SPEED, ..c },
            ActionView::Send(Command::SetWpmSpeed.frame(seq![DEFAULT_SPEED])),
        ),
        Stage::SendingSpeed => (
            at(c, Stage::SendingSpeedPot),
            ActionView::Send(Command::SetupSpeedPot.frame(speed_pot_range())),
        ),
        Stage::SendingSpeedPot => (at(c, Stage::Active), ActionView::Ready),
        Stage::Closing { cause } => (
            at(c, Stage::Closed),
            ActionView::Closed { cause, teardown: None },
        ),
        _ => ignored(c),
    }
}

/// What follows when the driver reports that the last action failed.
pub open spec fn failed(c: ClientView) -> (ClientView, ActionView) {
    match c.stage {
        Stage::Closing { cause } => (
            at(c, Stage::Closed),
            ActionView::Closed { cause, teardown: Some(Error::TeardownSendError) },
        ),
        _ => match failure_in(c.stage) {
            Some(error) => ended(c, Some(error)),
            None => ignored(c),
        },
    }
}

/// The transition of the session: the state after `event` and the action
/// that the driver is asked for.
pub open spec fn stepped(c: ClientView, event: Event) -> (ClientView, ActionView) {
    match event {
        Event::Start => if c.stage is Unopened {
            (at(c, Stage::OpeningLow), ActionView::Open(low_speed_link()))
        } else {
            ignored(c)
        },
        Event::Completed => completed(c),
        Event::Failed => failed(c),
        Event::Version(byte) => if c.stage is AwaitingVersion {
            if byte == WINKEY_23 {
                (
                    at(c, Stage::SendingHighBaud),
                    ActionView::Send(Command::AdminSetHighBaud.frame(Seq::empty())),
                )
            } else {
                ended(c, Some(Error::UnsupportedDeviceVersion(byte)))
            }
        } else {
            ignored(c)
        },
        Event::Shutdown => match c.stage {
            Stage::Closing { .. } => ignored(c),
            Stage::Closed => ignored(c),
            _ => ended(c, None),
        },
    }
}

/// The client after it has taken note of one report.
pub open spec fn noted(c: ClientView, report: Report) -> ClientView {
    match report {
        Report::KeyLine(key_down) => ClientView { key_down, ..c },
        Report::Status(status) => ClientView { status, ..c },
        Report::SpeedPot(speed) => ClientView { speed, ..c },
        Report::Echo(_) => c,
    }
}

/// What the bytes of `data` say, each decoded by itself.
pub open spec fn reports_of(data: Seq<u8>, key_line_mode: bool) -> Seq<Report> {
    Seq::new(data.len(), |i: int| decoded(data[i], key_line_mode))
}

/// The client after it has taken note of every byte of `data`, first to last.
pub open spec fn received(c: ClientView, data: Seq<u8>) -> ClientView
    decreases data.len(),
{
    if data.len() == 0 {
        c
    } else {
        noted(received(c, data.drop_last()), decoded(data.last(), c.key_line_mode))
    }
}

/// The transition of an established session on the outcome of one read.
/// Bytes are decoded and the link is read again; a read that brought no byte
/// ends the round as one that would block does. Before the session is
/// established, and after it, reads mean nothing.
pub open spec fn read_through(c: ClientView, outcome: ReadOutcome) -> (ClientView, ActionView) {
    if c.stage is Active {
        match outcome {
            ReadOutcome::Data(bytes) => if bytes@.len() == 0 {
                (c, ActionView::Wait)
            } else {
                (received(c, bytes@), ActionView::Deliver(reports_of(bytes@, c.key_line_mode)))
            },
            ReadOutcome::WouldBlock => (c, ActionView::Wait),
            ReadOutcome::Failed => ended(c, Some(Error::SerialReadError)),
        }
    } else {
        ignored(c)
    }
}

/// Receiving moves the session nowhere: whatever bytes come, the client stays
/// in its stage and reads status bytes as before.
pub proof fn lemma_received_keeps_stage(c: ClientView, data: Seq<u8>)
    ensures
        received(c, data).stage == c.stage,
        received(c, data).key_line_mode == c.key_line_mode,
    decreases data.len(),
{
    if data.len() > 0 {
        lemma_received_keeps_stage(c, data.drop_last());
    }
}

/// The key line that the client knows is the one reported last: of the bytes
/// received, the last that reports the key line decides alone, whatever came
/// before it and whatever else came after it.
pub proof fn lemma_last_key_line_wins(c: ClientView, data: Seq<u8>, last: int)
    requires
        c.key_line_mode,
        0 <= last < data.len(),
        is_key_line(data[last]),
        forall|i: int| last < i < data.len() ==> !is_key_line(data[i]),
    ensures
        received(c, data).key_down == (data[last] % 2 == 1),
    decreases data.len(),
{
    if last < data.len() - 1 {
        lemma_last_key_line_wins(c, data.drop_last(), last);
    }
}

/// Bytes that do not report the key line leave it as the client knows it.
pub proof fn lemma_key_line_stays(c: ClientView, data: Seq<u8>)
    requires
        forall|i: int| 0 <= i < data.len() ==> !(c.key_line_mode && is_key_line(data[i])),
    ensures
        received(c, data).key_down == c.key_down,
    decreases data.len(),
{
    if data.len() > 0 {
        lemma_key_line_stays(c, data.drop_last());
    }
}

/// The client and the actions it asked for after a run of events, the
/// actions in the order of the events.
pub open spec fn run(c: ClientView, events: Seq<Event>) -> (ClientView, Seq<ActionView>)
    decreases events.len(),
{
    if events.len() == 0 {
        (c, Seq::empty())
    } else {
        let (before, actions) = run(c, events.drop_last());
        let (after, action) = stepped(before, events.last());
        (after, actions.push(action))
    }
}

/// How a link without faults answers an action: with the keyer's version
/// where that was asked for, else with `Event::Completed`.
pub open spec fn answer(action: ActionView, version: u8) -> Event {
    match action {
        ActionView::ReadVersion => Event::Version(version),
        _ => Event::Completed,
    }
}

/// The first `n` steps of a session on a link without faults, whose keyer
/// gives `version` as its version: the client after them, and its actions.
pub open spec fn simulated(c: ClientView, version: u8, n: nat) -> (ClientView, Seq<ActionView>)
    decreases n,
{
    if n == 0 {
        (c, Seq::empty())
    } else {
        let (before, actions) = simulated(c, version, (n - 1) as nat);
        let event = if n == 1 {
            Event::Start
        } else {
            answer(actions.last(), version)
        };
        let (after, action) = stepped(before, event);
        (after, actions.push(action))
    }
}

/// What a client asks for, in this order, until a session with a keyer of the
/// right version is set up.
pub open spec fn handshake_script() -> Seq<ActionView> {
    seq![
        ActionView::Open(low_speed_link()),
        ActionView::Send(seq![0u8, 11u8]),
        ActionView::Send(seq![0u8, 2u8]),
        ActionView::ReadVersion,
        ActionView::Send(seq![0u8, 17u8]),
        ActionView::Settle(400),
        ActionView::Open(high_speed_link()),
        ActionView::Register,
        ActionView::Send(seq![0x0eu8, 0x44u8]),
        ActionView::ReportSpeed(30),
        ActionView::Send(seq![0x02u8, 30u8]),
        ActionView::Send(seq![0x05u8, 13u8, 32u8, 0u8]),
        ActionView::Ready,
    ]
}

/// Whether the action switches the link to the high baud rate: by telling
/// the keyer to switch, or by opening the link at that rate.
pub open spec fn switches_baud(action: ActionView) -> bool {
    action == ActionView::Send(seq![0u8, 17u8]) || action == ActionView::Open(high_speed_link())
}

/// The frames of the session, byte by byte.
pub proof fn lemma_frames()
    ensures
        Command::AdminSetWk2Mode.frame(Seq::empty()) == seq![0u8, 11u8],
        Command::AdminHostOpen.frame(Seq::empty()) == seq![0u8, 2u8],
        Command::AdminSetHighBaud.frame(Seq::empty()) == seq![0u8, 17u8],
        Command::AdminHostClose.frame(Seq::empty()) == seq![0u8, 3u8],
        session_mode() == Mode(0x44),
        Command::SetWk2Mode.frame(seq![session_mode().0]) == seq![0x0eu8, 0x44u8],
        Command::SetWpmSpeed.frame(seq![DEFAULT_SPEED]) == seq![0x02u8, 30u8],
        Command::SetupSpeedPot.frame(speed_pot_range()) == seq![0x05u8, 13u8, 32u8, 0u8],
{
    assert((0x40u8 | 0u8) | 0x04u8 == 0x44u8) by (bit_vector);
    assert(1u8 << 6 == 0x40u8) by (bit_vector);
    assert(1u8 << 2 == 0x04u8) by (bit_vector);
    assert(Command::AdminSetWk2Mode.frame(Seq::empty()) =~= seq![0u8, 11u8]);
    assert(Command::AdminHostOpen.frame(Seq::empty()) =~= seq![0u8, 2u8]);
    assert(Command::AdminSetHighBaud.frame(Seq::empty()) =~= seq![0u8, 17u8]);
    assert(Command::AdminHostClose.frame(Seq::empty()) =~= seq![0u8, 3u8]);
    assert(Command::SetWk2Mode.frame(seq![session_mode().0]) =~= seq![0x0eu8, 0x44u8]);
    assert(Command::SetWpmSpeed.frame(seq![DEFAULT_SPEED]) =~= seq![0x02u8, 30u8]);
    assert(Command::SetupSpeedPot.frame(speed_pot_range()) =~= seq![0x05u8, 13u8, 32u8, 0u8]);
}

/// The version byte decides the handshake: after the right one the keyer is
/// told to switch to the high baud rate; after any other the session is over,
/// for that reason, and nothing is sent.
pub proof fn lemma_version_decides(c: ClientView, byte: u8)
    requires
        c.stage is AwaitingVersion,
    ensures
        byte == WINKEY_23 ==> stepped(c, Event::Version(byte)) == (
            at(c, Stage::SendingHighBaud),
            ActionView::Send(seq![0u8, 17u8]),
        ),
        byte != WINKEY_23 ==> stepped(c, Event::Version(byte)) == (
            at(c, Stage::Closed),
            ActionView::Closed {
                cause: Some(Error::UnsupportedDeviceVersion(byte)),
                teardown: None,
            },
        ),
{
    lemma_frames();
}

/// A closed session stays closed: whatever is reported to it, the client
/// keeps its state and asks for nothing.
pub proof fn lemma_closed_is_final(c: ClientView, events: Seq<Event>)
    requires
        c.stage is Closed,
    ensures
        run(c, events).0 == c,
        run(c, events).1.len() == events.len(),
        forall|i: int| 0 <= i < events.len() ==> run(c, events).1[i] == ActionView::Idle,
    decreases events.len(),
{
    if events.len() > 0 {
        lemma_closed_is_final(c, events.drop_last());
    }
}

/// The link is switched to the high baud rate only after the keyer has given
/// the right version: the keyer is told to switch in answer to that byte and
/// to nothing else, and the link is opened at the high rate only when the
/// time to settle after that command is over.
pub proof fn lemma_baud_switch_needs_version(c: ClientView, event: Event)
    ensures
        stepped(c, event).1 == ActionView::Send(seq![0u8, 17u8]) ==> c.stage is AwaitingVersion
            && event == Event::Version(WINKEY_23),
        stepped(c, event).1 == ActionView::Open(high_speed_link()) ==> c.stage is Settling
            && event == Event::Completed,
        stepped(c, event).0.stage is Settling ==> c.stage is Settling || c.stage
            is SendingHighBaud,
        stepped(c, event).0.stage is SendingHighBaud ==> c.stage is SendingHighBaud || (c.stage
            is AwaitingVersion && event == Event::Version(WINKEY_23)),
{
    lemma_frames();
    let sent = seq![0u8, 17u8];
    assert(sent[1] == 17u8);
    assert(seq![0u8, 11u8][1] == 11u8);
    assert(seq![0u8, 2u8][1] == 2u8);
    assert(seq![0u8, 3u8][1] == 3u8);
    assert(seq![0x0eu8, 0x44u8][0] == 0x0eu8);
    assert(seq![0x02u8, 30u8][0] == 0x02u8);
    assert(seq![0x05u8, 13u8, 32u8, 0u8][0] == 0x05u8);
}

/// The place of a phase in the life of a session.
pub open spec fn rank(phase: Phase) -> int {
    match phase {
        Phase::Unopened => 0,
        Phase::LowSpeedHandshake => 1,
        Phase::HighSpeedActive => 2,
        Phase::Closed => 3,
    }
}

/// Whether a session can have come to this stage only past the version
/// check.
pub open spec fn past_version(stage: Stage) -> bool {
    match stage {
        Stage::SendingHighBaud => true,
        Stage::Settling => true,
        Stage::OpeningHigh => true,
        Stage::Registering => true,
        Stage::Closing { .. } => true,
        _ => has_session(stage),
    }
}

/// A session never goes back to an earlier phase, whatever is reported to the
/// client, and a read moves it on only by ending it.
pub proof fn lemma_phase_never_goes_back(c: ClientView, event: Event, outcome: ReadOutcome)
    ensures
        rank(phase_of(stepped(c, event).0.stage)) >= rank(phase_of(c.stage)),
        rank(phase_of(read_through(c, outcome).0.stage)) >= rank(phase_of(c.stage)),
        read_through(c, outcome).0.stage != c.stage ==> read_through(c, outcome).0.stage
            == (Stage::Closing { cause: Some(Error::SerialReadError) }),
{
    match outcome {
        ReadOutcome::Data(bytes) => {
            lemma_received_keeps_stage(c, bytes@);
        },
        _ => {},
    }
}

/// A keyer that has been opened over the registered link is always closed
/// again: the session leaves its established stages only by sending the
/// closing command, and once that command is on its way the session ends
/// whether the command could be sent or not, with the cause it had.
pub proof fn lemma_session_is_closed(c: ClientView, event: Event, outcome: ReadOutcome)
    ensures
        has_session(c.stage) && !has_session(stepped(c, event).0.stage) ==> stepped(c, event).0.stage
            is Closing && stepped(c, event).1 == ActionView::Send(seq![0u8, 3u8]),
        has_session(c.stage) && !has_session(read_through(c, outcome).0.stage) ==> read_through(
            c,
            outcome,
        ).0.stage is Closing && read_through(c, outcome).1 == ActionView::Send(seq![0u8, 3u8]),
        c.stage matches Stage::Closing { cause } ==> {
            &&& stepped(c, Event::Completed) == (
                at(c, Stage::Closed),
                ActionView::Closed { cause, teardown: None },
            )
            &&& stepped(c, Event::Failed) == (
                at(c, Stage::Closed),
                ActionView::Closed { cause, teardown: Some(Error::TeardownSendError) },
            )
            &&& event != Event::Completed && event != Event::Failed ==> stepped(c, event)
                == ignored(c)
            &&& read_through(c, outcome) == ignored(c)
        },
{
    lemma_frames();
    match outcome {
        ReadOutcome::Data(bytes) => {
            lemma_received_keeps_stage(c, bytes@);
        },
        _ => {},
    }
}

/// Without the right version byte no session comes past the version check,
/// whatever else is reported to the client and in whatever order: the link
/// is never switched to the high baud rate, and no session is established.
pub proof fn lemma_no_baud_switch_without_version(key_line_mode: bool, events: Seq<Event>)
    requires
        forall|i: int| 0 <= i < events.len() ==> events[i] != Event::Version(WINKEY_23),
    ensures
        !past_version(run(initial(key_line_mode), events).0.stage),
        run(initial(key_line_mode), events).1.len() == events.len(),
        forall|i: int|
            0 <= i < events.len() ==> !switches_baud(
                #[trigger] run(initial(key_line_mode), events).1[i],
            ),
    decreases events.len(),
{
    if events.len() > 0 {
        let c = initial(key_line_mode);
        lemma_no_baud_switch_without_version(key_line_mode, events.drop_last());
        lemma_frames();
        let (before, actions) = run(c, events.drop_last());
        let (after, action) = stepped(before, events.last());
        assert(!switches_baud(action)) by {
            assert(seq![0u8, 11u8][1] == 11u8);
            assert(seq![0u8, 2u8][1] == 2u8);
            assert(seq![0u8, 17u8][1] == 17u8);
            assert(low_speed_link() != high_speed_link());
        }
        assert forall|i: int| 0 <= i < events.len() implies !switches_baud(
            #[trigger] run(c, events).1[i],
        ) by {
            if i < events.len() - 1 {
                assert(run(c, events).1[i] == actions[i]);
            }
        }
    }
}

/// On a link without faults, with a keyer of the right version, the client
/// asks for exactly the actions of the handshake script, in their order, and
/// the session is then established.
pub proof fn lemma_handshake_succeeds(key_line_mode: bool)
    ensures
        simulated(initial(key_line_mode), WINKEY_23, 13) == (
            at(initial(key_line_mode), Stage::Active),
            handshake_script(),
        ),
        phase_of(Stage::Active) == Phase::HighSpeedActive,
{
    lemma_frames();
    let c = initial(key_line_mode);
    let v = WINKEY_23;
    let script = handshake_script();
    assert(simulated(c, v, 0).1 =~= script.take(0));
    assert(simulated(c, v, 1) == (at(c, Stage::OpeningLow), script.take(1))) by {
        assert(simulated(c, v, 1).1 =~= script.take(1));
    }
    assert(simulated(c, v, 2) == (at(c, Stage::SendingProtocolMode), script.take(2))) by {
        assert(simulated(c, v, 2).1 =~= script.take(2));
    }
    assert(simulated(c, v, 3) == (at(c, Stage::SendingHostOpen), script.take(3))) by {
        assert(simulated(c, v, 3).1 =~= script.take(3));
    }
    assert(simulated(c, v, 4) == (at(c, Stage::AwaitingVersion), script.take(4))) by {
        assert(simulated(c, v, 4).1 =~= script.take(4));
    }
    assert(simulated(c, v, 5) == (at(c, Stage::SendingHighBaud), script.take(5))) by {
        assert(simulated(c, v, 5).1 =~= script.take(5));
    }
    assert(simulated(c, v, 6) == (at(c, Stage::Settling), script.take(6))) by {
        assert(simulated(c, v, 6).1 =~= script.take(6));
    }
    assert(simulated(c, v, 7) == (at(c, Stage::OpeningHigh), script.take(7))) by {
        assert(simulated(c, v, 7).1 =~= script.take(7));
    }
    assert(simulated(c, v, 8) == (at(c, Stage::Registering), script.take(8))) by {
        assert(simulated(c, v, 8).1 =~= script.take(8));
    }
    assert(simulated(c, v, 9) == (at(c, Stage::SendingMode), script.take(9))) by {
        assert(simulated(c, v, 9).1 =~= script.take(9));
    }
    assert(simulated(c, v, 10) == (at(c, Stage::AnnouncingSpeed), script.take(10))) by {
        assert(simulated(c, v, 10).1 =~= script.take(10));
    }
    assert(simulated(c, v, 11) == (at(c, Stage::SendingSpeed), script.take(11))) by {
        assert(simulated(c, v, 11).1 =~= script.take(11));
    }
    assert(simulated(c, v, 12) == (at(c, Stage::SendingSpeedPot), script.take(12))) by {
        assert(simulated(c, v, 12).1 =~= script.take(12));
    }
    assert(simulated(c, v, 13) == (at(c, Stage::Active), script.take(13))) by {
        assert(simulated(c, v, 13).1 =~= script.take(13));
    }
    assert(script.take(13) =~= script);
}

/// On a link without faults, with a keyer of any other version, the client
/// ends the session for that reason when it has read the version byte, and
/// at no step, before or after, does it switch the link to the high baud
/// rate.
pub proof fn lemma_handshake_rejects(key_line_mode: bool, version: u8, n: nat)
    requires
        version != WINKEY_23,
        n >= 5,
    ensures
        simulated(initial(key_line_mode), version, n).0 == at(
            initial(key_line_mode),
            Stage::Closed,
        ),
        simulated(initial(key_line_mode), version, n).1.len() == n,
        simulated(initial(key_line_mode), version, n).1[4] == (ActionView::Closed {
            cause: Some(Error::UnsupportedDeviceVersion(version)),
            teardown: None,
        }),
        forall|i: int|
            0 <= i < n ==> !switches_baud(
                #[trigger] simulated(initial(key_line_mode), version, n).1[i],
            ),
        forall|i: int|
            5 <= i < n ==> #[trigger] simulated(initial(key_line_mode), version, n).1[i]
                == ActionView::Idle,
    decreases n,
{
    lemma_frames();
    let c = initial(key_line_mode);
    let script = handshake_script();
    if n == 5 {
        assert(simulated(c, version, 0).1 =~= script.take(0));
        assert(simulated(c, version, 1) == (at(c, Stage::OpeningLow), script.take(1))) by {
            assert(simulated(c, version, 1).1 =~= script.take(1));
        }
        assert(simulated(c, version, 2) == (at(c, Stage::SendingProtocolMode), script.take(2)))
            by {
            assert(simulated(c, version, 2).1 =~= script.take(2));
        }
        assert(simulated(c, version, 3) == (at(c, Stage::SendingHostOpen), script.take(3))) by {
            assert(simulated(c, version, 3).1 =~= script.take(3));
        }
        assert(simulated(c, version, 4) == (at(c, Stage::AwaitingVersion), script.take(4))) by {
            assert(simulated(c, version, 4).1 =~= script.take(4));
        }
        let actions = simulated(c, version, 5).1;
        assert(actions[0] == script[0]);
        assert(actions[1] == script[1]);
        assert(actions[2] == script[2]);
        assert(actions[3] == script[3]);
        assert(seq![0u8, 11u8][1] == 11u8);
        assert(seq![0u8, 2u8][1] == 2u8);
        assert(seq![0u8, 17u8][1] == 17u8);
        assert(low_speed_link() != high_speed_link());
    } else {
        lemma_handshake_rejects(key_line_mode, version, (n - 1) as nat);
    }
}

} // verus!
