//! Host side of the keyer's serial protocol: the client that sets a session
//! up, follows what the keyer reports, and closes the session again. The
//! client touches no serial port. It is told what happened on the link and
//! answers with what is to be done there next.

pub mod command;
pub mod session;
pub mod status;

use crate::shared::SharedKeyState;
use crate::winkey::command::parameters;
use crate::winkey::command::Command;
use crate::winkey::command::Mode;
use crate::winkey::command::DEFAULT_SPEED;
use crate::winkey::command::HIGH_BAUD;
use crate::winkey::command::KEY_MODE_IAMBIC_B;
use crate::winkey::command::LOW_BAUD;
use crate::winkey::command::MAX_SPEED;
use crate::winkey::command::MIN_SPEED;
use crate::winkey::command::PADDLE_ECHO_BACK;
use crate::winkey::command::SERIAL_ECHOBACK;
use crate::winkey::session::completed;
use crate::winkey::session::ended;
use crate::winkey::session::failed;
use crate::winkey::session::initial;
use crate::winkey::session::noted;
use crate::winkey::session::phase_of;
use crate::winkey::session::read_through;
use crate::winkey::session::received;
use crate::winkey::session::reports_of;
use crate::winkey::session::speed_pot_range;
use crate::winkey::session::stepped;
use crate::winkey::session::Action;
use crate::winkey::session::ClientView;
use crate::winkey::session::Error;
use crate::winkey::session::Event;
use crate::winkey::session::LinkMode;
use crate::winkey::session::LinkSettings;
use crate::winkey::session::Parity;
use crate::winkey::session::Phase;
use crate::winkey::session::ReadOutcome;
use crate::winkey::session::Stage;
use crate::winkey::session::SETTLE_MS;
use crate::winkey::session::VERSION_TIMEOUT_MS;
use crate::winkey::session::WINKEY_23;
use crate::winkey::status::decode;
use crate::winkey::status::Report;
use std::sync::Arc;
use vstd::prelude::*;

verus! {

/// The keyer's client. It owns the state of one session and shares the key
/// line with the audio engine.
pub struct Client {
    stage: Stage,
    key_line_mode: bool,
    status: u8,
    key_down: bool,
    speed: u8,
    tx_key_line: Arc<SharedKeyState>,
}

impl View for Client {
    type V = ClientView;

    closed spec fn view(&self) -> ClientView {
        ClientView {
            stage: self.stage,
            key_line_mode: self.key_line_mode,
            status: self.status,
            key_down: self.key_down,
            speed: self.speed,
        }
    }
}

/// The frame of `command` with the parameters `extra`, in a buffer of its own.
fn frame_of(command: Command, extra: Option<Vec<u8>>) -> (bytes: Vec<u8>)
    ensures
        bytes@ == command.frame(parameters(extra)),
{
    let mut bytes: Vec<u8> = Vec::new();
    command.send(&mut bytes, extra);
    bytes
}

impl Client {
    /// A client that has not touched the link yet. Every state of the key line
    /// that the keyer reports to it is stored in `tx_key_line`. With
    /// `key_line_mode` on, status bytes with bit 3 set are read as such
    /// reports: only a keyer with the firmware for it sends them so.
    pub fn new(key_line_mode: bool, tx_key_line: Arc<SharedKeyState>) -> (client: Client)
        ensures
            client@ == initial(key_line_mode),
    {
        Client {
            stage: Stage::Unopened,
            key_line_mode,
            status: 0,
            key_down: false,
            speed: DEFAULT_SPEED,
            tx_key_line,
        }
    }

    pub fn phase(&self) -> (phase: Phase)
        ensures
            phase == phase_of(self@.stage),
    {
        match self.stage {
            Stage::Unopened => Phase::Unopened,
            Stage::OpeningLow => Phase::LowSpeedHandshake,
            Stage::SendingProtocolMode => Phase::LowSpeedHandshake,
            Stage::SendingHostOpen => Phase::LowSpeedHandshake,
            Stage::AwaitingVersion => Phase::LowSpeedHandshake,
            Stage::SendingHighBaud => Phase::LowSpeedHandshake,
            Stage::Settling => Phase::LowSpeedHandshake,
            Stage::OpeningHigh => Phase::HighSpeedActive,
            Stage::Registering => Phase::HighSpeedActive,
            Stage::SendingMode => Phase::HighSpeedActive,
            Stage::AnnouncingSpeed => Phase::HighSpeedActive,
            Stage::SendingSpeed => Phase::HighSpeedActive,
            Stage::SendingSpeedPot => Phase::HighSpeedActive,
            Stage::Active => Phase::HighSpeedActive,
            Stage::Closing { .. } => Phase::Closed,
            Stage::Closed => Phase::Closed,
        }
    }

    pub fn stage(&self) -> (stage: Stage)
        ensures
            stage == self@.stage,
    {
        self.stage
    }

    /// The last status byte that was kept as it came; zero before the first.
    pub fn status(&self) -> (status: u8)
        ensures
            status == self@.status,
    {
        self.status
    }

    /// The last state of the key line that the keyer reported.
    pub fn key_down(&self) -> (key_down: bool)
        ensures
            key_down == self@.key_down,
    {
        self.key_down
    }

    /// The speed last configured or dialled, in words per minute.
    pub fn speed(&self) -> (speed: u8)
        ensures
            speed == self@.speed,
    {
        self.speed
    }

    /// Ends the session for `cause`.
    fn end(&mut self, cause: Option<Error>) -> (action: Action)
        ensures
            final(self)@ == ended(old(self)@, cause).0,
            action@ == ended(old(self)@, cause).1,
    {
        match self.stage {
            Stage::SendingMode
            | Stage::AnnouncingSpeed
            | Stage::SendingSpeed
            | Stage::SendingSpeedPot
            | Stage::Active => {
                self.stage = Stage::Closing { cause };
                Action::Send(frame_of(Command::AdminHostClose, None))
            },
            _ => {
                self.stage = Stage::Closed;
                Action::Closed { cause, teardown: None }
            },
        }
    }

    /// The driver has done what it was asked for.
    fn on_completed(&mut self) -> (action: Action)
        ensures
            final(self)@ == completed(old(self)@).0,
            action@ == completed(old(self)@).1,
    {
        match self.stage {
            Stage::OpeningLow => {
                self.stage = Stage::SendingProtocolMode;
                Action::Send(frame_of(Command::AdminSetWk2Mode, None))
            },
            Stage::SendingProtocolMode => {
                self.stage = Stage::SendingHostOpen;
                Action::Send(frame_of(Command::AdminHostOpen, None))
            },
            Stage::SendingHostOpen => {
                self.stage = Stage::AwaitingVersion;
                Action::ReadVersion
            },
            Stage::SendingHighBaud => {
                self.stage = Stage::Settling;
                Action::Settle(SETTLE_MS)
            },
            Stage::Settling => {
                self.stage = Stage::OpeningHigh;
                Action::Open(
                    LinkSettings {
                        baud: HIGH_BAUD,
                        data_bits: 8,
                        stop_bits: 2,
                        parity: Parity::Off,
                        mode: LinkMode::NonBlocking,
                    },
                )
            },
            Stage::OpeningHigh => {
                self.stage = Stage::Registering;
                Action::Register
            },
            Stage::Registering => {
                let mode = Mode(PADDLE_ECHO_BACK) | Mode(KEY_MODE_IAMBIC_B) | Mode(SERIAL_ECHOBACK);
                self.stage = Stage::SendingMode;
                Action::Send(frame_of(Command::SetWk2Mode, mode.option()))
            },
            Stage::SendingMode => {
                self.stage = Stage::AnnouncingSpeed;
                Action::ReportSpeed(DEFAULT_SPEED)
            },
            Stage::AnnouncingSpeed => {
                self.stage = Stage::SendingSpeed;
                self.speed = DEFAULT_SPEED;
                let extra: Vec<u8> = vec![DEFAULT_SPEED];
                assert(extra@ =~= seq![DEFAULT_SPEED]);
                Action::Send(frame_of(Command::SetWpmSpeed, Some(extra)))
            },
            Stage::SendingSpeed => {
                let span: u8 = MAX_SPEED - MIN_SPEED;
                let extra: Vec<u8> = vec![MIN_SPEED, span, 0];
                assert(extra@ =~= speed_pot_range());
                self.stage = Stage::SendingSpeedPot;
                Action::Send(frame_of(Command::SetupSpeedPot, Some(extra)))
            },
            Stage::SendingSpeedPot => {
                self.stage = Stage::Active;
                Action::Ready
            },
            Stage::Closing { cause } => {
                self.stage = Stage::Closed;
                Action::Closed { cause, teardown: None }
            },
            _ => Action::Idle,
        }
    }

    /// The driver could not do what it was asked for.
    fn on_failed(&mut self) -> (action: Action)
        ensures
            final(self)@ == failed(old(self)@).0,
            action@ == failed(old(self)@).1,
    {
        match self.stage {
            Stage::Closing { cause } => {
                self.stage = Stage::Closed;
                Action::Closed { cause, teardown: Some(Error::TeardownSendError) }
            },
            Stage::OpeningLow | Stage::OpeningHigh => self.end(Some(Error::DeviceOpenError)),
            Stage::AwaitingVersion => self.end(Some(Error::SerialReadError)),
            Stage::Registering => self.end(Some(Error::ReadinessRegistrationError)),
            Stage::SendingProtocolMode
            | Stage::SendingHostOpen
            | Stage::SendingHighBaud
            | Stage::SendingMode
            | Stage::SendingSpeed
            | Stage::SendingSpeedPot => self.end(Some(Error::CommandSendError)),
            _ => Action::Idle,
        }
    }

    /// Takes one event from the driver of the link and answers with what the
    /// driver has to do next. An event that means nothing in the present
    /// stage changes nothing and is answered with `Action::Idle`.
    pub fn step(&mut self, event: Event) -> (action: Action)
        ensures
            final(self)@ == stepped(old(self)@, event).0,
            action@ == stepped(old(self)@, event).1,
    {
        match event {
            Event::Start => match self.stage {
                Stage::Unopened => {
                    self.stage = Stage::OpeningLow;
                    Action::Open(
                        LinkSettings {
                            baud: LOW_BAUD,
                            data_bits: 8,
                            stop_bits: 2,
                            parity: Parity::Off,
                            mode: LinkMode::Blocking { timeout_ms: VERSION_TIMEOUT_MS },
                        },
                    )
                },
                _ => Action::Idle,
            },
            Event::Completed => self.on_completed(),
            Event::Failed => self.on_failed(),
            Event::Version(byte) => match self.stage {
                Stage::AwaitingVersion => {
                    if byte == WINKEY_23 {
                        self.stage = Stage::SendingHighBaud;
                        Action::Send(frame_of(Command::AdminSetHighBaud, None))
                    } else {
                        self.end(Some(Error::UnsupportedDeviceVersion(byte)))
                    }
                },
                _ => Action::Idle,
            },
            Event::Shutdown => match self.stage {
                Stage::Closing { .. } | Stage::Closed => Action::Idle,
                _ => self.end(None),
            },
        }
    }

    /// Takes note of one report, and passes the key line on to the audio
    /// engine.
    fn note(&mut self, report: Report)
        ensures
            final(self)@ == noted(old(self)@, report),
    {
        match report {
            Report::KeyLine(key_down) => {
                self.key_down = key_down;
                self.tx_key_line.set_key_down(key_down);
            },
            Report::Status(status) => {
                self.status = status;
            },
            Report::SpeedPot(speed) => {
                self.speed = speed;
            },
            Report::Echo(_) => {},
        }
    }

    /// Decodes the bytes of `data`, each by itself and in their order, takes
    /// note of what they say and returns it.
    pub fn on_receive(&mut self, data: &[u8]) -> (reports: Vec<Report>)
        ensures
            final(self)@ == received(old(self)@, data@),
            reports@ == reports_of(data@, old(self)@.key_line_mode),
    {
        let mut reports: Vec<Report> = Vec::new();
        let mut i: usize = 0;
        while i < data.len()
            invariant
                i <= data.len(),
                self@ == received(old(self)@, data@.take(i as int)),
                self@.key_line_mode == old(self)@.key_line_mode,
                reports@ == reports_of(data@.take(i as int), old(self)@.key_line_mode),
            decreases data.len() - i,
        {
            let report = decode(data[i], self.key_line_mode);
            self.note(report);
            reports.push(report);
            i += 1;
            proof {
                let now = data@.take(i as int);
                assert(now.drop_last() =~= data@.take(i - 1));
                assert(now.last() == data@[i - 1]);
                assert(reports@ =~= reports_of(now, old(self)@.key_line_mode));
            }
        }
        assert(data@.take(i as int) =~= data@);
        reports
    }

    /// Takes the outcome of one read on the link of an established session.
    /// Data is decoded and handed out, and the driver reads again; a read that
    /// would block, or brought nothing, ends the round; a read that failed
    /// ends the session.
    pub fn read(&mut self, outcome: ReadOutcome) -> (action: Action)
        ensures
            final(self)@ == read_through(old(self)@, outcome).0,
            action@ == read_through(old(self)@, outcome).1,
    {
        match self.stage {
            Stage::Active => match outcome {
                ReadOutcome::Data(bytes) => {
                    if bytes.len() == 0 {
                        Action::Wait
                    } else {
                        Action::Deliver(self.on_receive(bytes.as_slice()))
                    }
                },
                ReadOutcome::WouldBlock => Action::Wait,
                ReadOutcome::Failed => self.end(Some(Error::SerialReadError)),
            },
            _ => Action::Idle,
        }
    }
}

} // verus!
