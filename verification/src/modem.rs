//! The side of the driver that talks to the adapter over its serial line.
//!
//! The modem decides and its caller acts: `run` takes what came of the last action and tells
//! which action is next.
use vstd::prelude::*;

use crate::error::AdapterError;
use crate::protocol::Response;
use crate::scan::{
    lemma_marks, ready_mark, verdict, OkScan, ReadyScan, READY_CAPACITY, REPLY_CAPACITY,
};
use crate::text::Line;

verus! {

/// A setting that the adapter is given before it is used.
#[derive(Clone, Copy, Debug, PartialEq, Eq, Structural)]
pub enum Setting {
    DisableEcho,
    EnableMux,
    SetRecvMode,
    SetMode,
}

impl Setting {
    /// The line that makes the setting.
    pub open spec fn text(self) -> Seq<char> {
        match self {
            Setting::DisableEcho => "ATE0\r\n"@,
            Setting::EnableMux => "AT+CIPMUX=1\r\n"@,
            Setting::SetRecvMode => "AT+CIPRECVMODE=1\r\n"@,
            Setting::SetMode => "AT+CWMODE_CUR=1\r\n"@,
        }
    }

    /// The setting that is made after this one.
    pub open spec fn successor(self) -> Option<Setting> {
        match self {
            Setting::DisableEcho => Some(Setting::EnableMux),
            Setting::EnableMux => Some(Setting::SetRecvMode),
            Setting::SetRecvMode => Some(Setting::SetMode),
            Setting::SetMode => None,
        }
    }

    /// The complaint about an adapter that does not accept the setting.
    pub open spec fn complaint_text(self) -> Seq<char> {
        match self {
            Setting::DisableEcho => "Error disabling echo mode"@,
            Setting::EnableMux => "Error enabling mux"@,
            Setting::SetRecvMode => "Error setting receive mode"@,
            Setting::SetMode => "Error setting station mode"@,
        }
    }

    /// The line that makes the setting.
    pub fn line(self) -> (line: &'static str)
        ensures
            line@ == self.text(),
    {
        match self {
            Setting::DisableEcho => "ATE0\r\n",
            Setting::EnableMux => "AT+CIPMUX=1\r\n",
            Setting::SetRecvMode => "AT+CIPRECVMODE=1\r\n",
            Setting::SetMode => "AT+CWMODE_CUR=1\r\n",
        }
    }

    /// The setting that is made after this one.
    pub fn next(self) -> (res: Option<Setting>)
        ensures
            res == self.successor(),
    {
        match self {
            Setting::DisableEcho => Some(Setting::EnableMux),
            Setting::EnableMux => Some(Setting::SetRecvMode),
            Setting::SetRecvMode => Some(Setting::SetMode),
            Setting::SetMode => None,
        }
    }

    /// The complaint about an adapter that does not accept the setting.
    pub fn complaint(self) -> (text: &'static str)
        ensures
            text@ == self.complaint_text(),
    {
        match self {
            Setting::DisableEcho => "Error disabling echo mode",
            Setting::EnableMux => "Error enabling mux",
            Setting::SetRecvMode => "Error setting receive mode",
            Setting::SetMode => "Error setting station mode",
        }
    }
}

/// Why the modem cannot go on. Its caller is to panic.
#[derive(Clone, Copy, Debug, PartialEq, Eq, Structural)]
pub enum Fault {
    /// The enable pin could not be raised.
    Enable,
    /// The reset pin could not be raised.
    Reset,
    /// The adapter sent too much before it announced itself.
    ReadyOverrun,
    /// The adapter sent too much in reply to a setting.
    ReplyOverrun(Setting),
    /// A setting could not be made.
    Configuration(Setting, AdapterError),
}

/// What the modem asks its caller to do.
pub enum Action {
    /// Raise the enable pin.
    RaiseEnable,
    /// Raise the reset pin.
    RaiseReset,
    /// Read one byte from the serial line.
    ReadByte,
    /// Write the line of a setting to the serial line.
    Configure(Setting),
    /// Wait for a command or for input, whichever comes first.
    Select,
    /// Write a command to the serial line.
    Forward(Line),
    /// Put the bytes into the parse buffer, and parse it.
    Digest(Vec<u8>),
    /// Hand the response to the side that waits for responses.
    Respond(Response),
    /// Hand the response to the side that listens to notifications.
    Notify(Response),
    /// The processing was interrupted by an error. Take note of it, and resume where that is
    /// wanted.
    Report(AdapterError),
    /// Panic.
    Halt(Fault),
}

/// What came of an action.
pub enum Event {
    /// The modem was started.
    Start,
    /// A pin was raised, or could not be.
    PinRaised(Result<(), ()>),
    /// A byte was read, or could not be.
    ByteRead(Result<u8, ()>),
    /// A line was written, or could not be.
    Written(Result<(), ()>),
    /// A command came first.
    Command(Line),
    /// Input came first, or an error of the serial line.
    Input(Result<Vec<u8>, ()>),
    /// The parse buffer was parsed, or could not be.
    Parsed(Result<Response, ()>),
    /// A response was handed over.
    Delivered,
    /// The processing is to go on after an error.
    Resume,
}

/// Where a response of the adapter belongs.
pub enum Delivery {
    /// To the side that waits for responses.
    Response(Response),
    /// To the side that listens to notifications.
    Notification(Response),
    /// Nowhere.
    Dropped,
}

/// Whether a response is a message that the adapter sends of its own accord about a link.
pub open spec fn is_notification(response: Response) -> bool {
    response is Closed || response is DataAvailable
}

/// Whether a response is of no interest to either side.
pub open spec fn is_dropped(response: Response) -> bool {
    ||| response is Nothing
    ||| response is WifiConnected
    ||| response is WifiDisconnect
    ||| response is GotIp
}

/// Where what the parser found belongs.
pub open spec fn destination(parsed: Result<Response, ()>) -> Delivery {
    match parsed {
        Ok(response) => if is_notification(response) {
            Delivery::Notification(response)
        } else if is_dropped(response) {
            Delivery::Dropped
        } else {
            Delivery::Response(response)
        },
        Err(()) => Delivery::Dropped,
    }
}

/// Decides where what the parser found belongs.
pub fn digest(parsed: Result<Response, ()>) -> (delivery: Delivery)
    ensures
        delivery == destination(parsed),
        match delivery {
            Delivery::Response(response) => parsed == Ok::<Response, ()>(response),
            Delivery::Notification(response) => parsed == Ok::<Response, ()>(response),
            Delivery::Dropped => true,
        },
{
    match parsed {
        Ok(response) => match response {
            Response::Nothing => Delivery::Dropped,
            Response::Okay
            | Response::Error
            | Response::FirmwareInfo(..)
            | Response::Connect(..)
            | Response::ReadyForData
            | Response::ReceivedDataToSend(..)
            | Response::DataReceived(..)
            | Response::SendOk
            | Response::SendFail
            | Response::WifiConnectionFailure(..)
            | Response::IpAddress(..)
            | Response::Resolvers(..)
            | Response::DnsFail
            | Response::UnlinkFail
            | Response::IpAddresses(..) => Delivery::Response(response),
            Response::Closed(..) | Response::DataAvailable { .. } => Delivery::Notification(response),
            Response::WifiConnected => Delivery::Dropped,
            Response::WifiDisconnect => Delivery::Dropped,
            Response::GotIp => Delivery::Dropped,
        },
        Err(()) => Delivery::Dropped,
    }
}

/// How far the modem has come.
pub enum Phase {
    /// It was not started.
    Idle,
    /// The enable pin is being raised.
    RaisingEnable,
    /// The reset pin is being raised.
    RaisingReset,
    /// The adapter has sent these bytes, and has not announced itself.
    AwaitingReady(Seq<u8>),
    /// The line of a setting is being written.
    Configuring(Setting),
    /// The adapter has sent these bytes in reply to a setting, and its reply is not complete.
    AwaitingOk(Setting, Seq<u8>),
    /// A command or input is awaited.
    Selecting,
    /// A command is being written.
    Forwarding,
    /// Input is being parsed.
    Digesting,
    /// A response is being handed over.
    Delivering,
    /// The processing was interrupted by an error.
    Interrupted,
    /// It cannot go on.
    Halted,
}

impl Phase {
    /// Whether the adapter is past its configuration, so that commands are taken.
    pub open spec fn running(self) -> bool {
        ||| self is Selecting
        ||| self is Forwarding
        ||| self is Digesting
        ||| self is Delivering
        ||| self is Interrupted
    }

    /// What holds of every phase: a mark is noticed with its last byte, and no more bytes are kept
    /// than there is room for.
    pub open spec fn wf(self) -> bool {
        match self {
            Phase::AwaitingReady(seen) => {
                &&& seen.len() <= READY_CAPACITY
                &&& forall|n: int|
                    0 <= n <= seen.len() ==> !ready_mark().is_suffix_of(#[trigger] seen.take(n))
            },
            Phase::AwaitingOk(_, seen) => {
                &&& seen.len() < REPLY_CAPACITY
                &&& forall|n: int| 0 <= n <= seen.len() ==> verdict(#[trigger] seen.take(n)) is None
            },
            _ => true,
        }
    }

    /// Whether the event is an outcome of the action that is under way in this phase.
    pub open spec fn awaits(self, event: Event) -> bool {
        match self {
            Phase::Idle => event is Start,
            Phase::RaisingEnable => event is PinRaised,
            Phase::RaisingReset => event is PinRaised,
            Phase::AwaitingReady(_) => event is ByteRead,
            Phase::Configuring(_) => event is Written,
            Phase::AwaitingOk(_, _) => event is ByteRead,
            Phase::Selecting => event is Command || event is Input,
            Phase::Forwarding => event is Written,
            Phase::Digesting => event is Parsed,
            Phase::Delivering => event is Delivered,
            Phase::Interrupted => event is Resume,
            Phase::Halted => false,
        }
    }

    /// The phase and the action that follow when the adapter is still to announce itself.
    pub open spec fn after_ready_byte(seen: Seq<u8>, read: Result<u8, ()>) -> (Phase, Action) {
        match read {
            Ok(byte) => if seen.len() >= READY_CAPACITY {
                (Phase::Halted, Action::Halt(Fault::ReadyOverrun))
            } else if ready_mark().is_suffix_of(seen.push(byte)) {
                (Phase::Configuring(Setting::DisableEcho), Action::Configure(Setting::DisableEcho))
            } else {
                (Phase::AwaitingReady(seen.push(byte)), Action::ReadByte)
            },
            Err(()) => (Phase::Interrupted, Action::Report(AdapterError::UnableToInitialize)),
        }
    }

    /// The phase and the action that follow a setting that the adapter has accepted.
    pub open spec fn after_setting(setting: Setting) -> (Phase, Action) {
        match setting.successor() {
            Some(next) => (Phase::Configuring(next), Action::Configure(next)),
            None => (Phase::Selecting, Action::Select),
        }
    }

    /// The phase and the action that follow a setting that could not be made.
    pub open spec fn after_refusal(setting: Setting) -> (Phase, Action) {
        (
            Phase::Halted,
            Action::Halt(Fault::Configuration(setting, AdapterError::UnableToInitialize)),
        )
    }

    /// The phase and the action that follow when the adapter's reply to a setting is not complete.
    pub open spec fn after_reply_byte(
        setting: Setting,
        seen: Seq<u8>,
        read: Result<u8, ()>,
    ) -> (Phase, Action) {
        match read {
            Ok(byte) => match verdict(seen.push(byte)) {
                Some(Ok(())) => Phase::after_setting(setting),
                Some(Err(_)) => Phase::after_refusal(setting),
                None => if seen.len() + 1 >= REPLY_CAPACITY {
                    (Phase::Halted, Action::Halt(Fault::ReplyOverrun(setting)))
                } else {
                    (Phase::AwaitingOk(setting, seen.push(byte)), Action::ReadByte)
                },
            },
            Err(()) => Phase::after_refusal(setting),
        }
    }

    /// The phase and the action that follow an event.
    pub open spec fn next(self, event: Event) -> (Phase, Action) {
        match (self, event) {
            (Phase::Idle, Event::Start) => (Phase::RaisingEnable, Action::RaiseEnable),
            (Phase::RaisingEnable, Event::PinRaised(Ok(()))) => (
                Phase::RaisingReset,
                Action::RaiseReset,
            ),
            (Phase::RaisingEnable, Event::PinRaised(Err(()))) => (
                Phase::Halted,
                Action::Halt(Fault::Enable),
            ),
            (Phase::RaisingReset, Event::PinRaised(Ok(()))) => (
                Phase::AwaitingReady(Seq::empty()),
                Action::ReadByte,
            ),
            (Phase::RaisingReset, Event::PinRaised(Err(()))) => (
                Phase::Halted,
                Action::Halt(Fault::Reset),
            ),
            (Phase::AwaitingReady(seen), Event::ByteRead(read)) => Phase::after_ready_byte(
                seen,
                read,
            ),
            (Phase::Configuring(setting), Event::Written(Ok(()))) => (
                Phase::AwaitingOk(setting, Seq::empty()),
                Action::ReadByte,
            ),
            (Phase::Configuring(setting), Event::Written(Err(()))) => Phase::after_refusal(setting),
            (Phase::AwaitingOk(setting, seen), Event::ByteRead(read)) => Phase::after_reply_byte(
                setting,
                seen,
                read,
            ),
            (Phase::Selecting, Event::Command(line)) => (Phase::Forwarding, Action::Forward(line)),
            (Phase::Selecting, Event::Input(Ok(bytes))) => (
                Phase::Digesting,
                Action::Digest(bytes),
            ),
            (Phase::Selecting, Event::Input(Err(()))) => (
                Phase::Interrupted,
                Action::Report(AdapterError::ReadError),
            ),
            (Phase::Forwarding, Event::Written(Err(()))) => (
                Phase::Interrupted,
                Action::Report(AdapterError::WriteError),
            ),
            (Phase::Digesting, Event::Parsed(parsed)) => match destination(parsed) {
                Delivery::Response(response) => (Phase::Delivering, Action::Respond(response)),
                Delivery::Notification(response) => (Phase::Delivering, Action::Notify(response)),
                Delivery::Dropped => (Phase::Selecting, Action::Select),
            },
            _ => (Phase::Selecting, Action::Select),
        }
    }
}

/// How far a modem has come, with the bytes that it keeps.
enum State {
    Idle,
    RaisingEnable,
    RaisingReset,
    AwaitingReady(ReadyScan),
    Configuring(Setting),
    AwaitingOk(Setting, OkScan),
    Selecting,
    Forwarding,
    Digesting,
    Delivering,
    Interrupted,
    Halted,
}

impl State {
    spec fn phase(self) -> Phase {
        match self {
            State::Idle => Phase::Idle,
            State::RaisingEnable => Phase::RaisingEnable,
            State::RaisingReset => Phase::RaisingReset,
            State::AwaitingReady(scan) => Phase::AwaitingReady(scan@),
            State::Configuring(setting) => Phase::Configuring(setting),
            State::AwaitingOk(setting, scan) => Phase::AwaitingOk(setting, scan@),
            State::Selecting => Phase::Selecting,
            State::Forwarding => Phase::Forwarding,
            State::Digesting => Phase::Digesting,
            State::Delivering => Phase::Delivering,
            State::Interrupted => Phase::Interrupted,
            State::Halted => Phase::Halted,
        }
    }

    fn refuse(setting: Setting) -> (res: (State, Action))
        ensures
            (res.0.phase(), res.1) == Phase::after_refusal(setting),
    {
        (
            State::Halted,
            Action::Halt(Fault::Configuration(setting, AdapterError::UnableToInitialize)),
        )
    }

    fn advance(setting: Setting) -> (res: (State, Action))
        ensures
            (res.0.phase(), res.1) == Phase::after_setting(setting),
    {
        match setting.next() {
            Some(next) => (State::Configuring(next), Action::Configure(next)),
            None => (State::Selecting, Action::Select),
        }
    }

    fn ready_byte(scan: ReadyScan, read: Result<u8, ()>) -> (res: (State, Action))
        ensures
            (res.0.phase(), res.1) == Phase::after_ready_byte(scan@, read),
    {
        let mut scan = scan;
        match read {
            Ok(byte) => {
                if scan.is_full() {
                    (State::Halted, Action::Halt(Fault::ReadyOverrun))
                } else if scan.feed(byte) {
                    (
                        State::Configuring(Setting::DisableEcho),
                        Action::Configure(Setting::DisableEcho),
                    )
                } else {
                    (State::AwaitingReady(scan), Action::ReadByte)
                }
            },
            Err(()) => (State::Interrupted, Action::Report(AdapterError::UnableToInitialize)),
        }
    }

    fn reply_byte(setting: Setting, scan: OkScan, read: Result<u8, ()>) -> (res: (State, Action))
        requires
            scan@.len() < REPLY_CAPACITY,
        ensures
            (res.0.phase(), res.1) == Phase::after_reply_byte(setting, scan@, read),
    {
        let mut scan = scan;
        match scan.feed(read) {
            Some(Ok(())) => State::advance(setting),
            Some(Err(_)) => State::refuse(setting),
            None => {
                if scan.is_full() {
                    (State::Halted, Action::Halt(Fault::ReplyOverrun(setting)))
                } else {
                    (State::AwaitingOk(setting, scan), Action::ReadByte)
                }
            },
        }
    }

    fn next(self, event: Event) -> (res: (State, Action))
        requires
            self.phase().wf(),
            self.phase().awaits(event),
        ensures
            (res.0.phase(), res.1) == self.phase().next(event),
    {
        match (self, event) {
            (State::Idle, _) => (State::RaisingEnable, Action::RaiseEnable),
            (State::RaisingEnable, Event::PinRaised(Ok(()))) => (
                State::RaisingReset,
                Action::RaiseReset,
            ),
            (State::RaisingEnable, _) => (State::Halted, Action::Halt(Fault::Enable)),
            (State::RaisingReset, Event::PinRaised(Ok(()))) => (
                State::AwaitingReady(ReadyScan::new()),
                Action::ReadByte,
            ),
            (State::RaisingReset, _) => (State::Halted, Action::Halt(Fault::Reset)),
            (State::AwaitingReady(scan), Event::ByteRead(read)) => State::ready_byte(scan, read),
            (State::Configuring(setting), Event::Written(Ok(()))) => (
                State::AwaitingOk(setting, OkScan::new()),
                Action::ReadByte,
            ),
            (State::Configuring(setting), _) => State::refuse(setting),
            (State::AwaitingOk(setting, scan), Event::ByteRead(read)) => State::reply_byte(
                setting,
                scan,
                read,
            ),
            (State::Selecting, Event::Command(line)) => (State::Forwarding, Action::Forward(line)),
            (State::Selecting, Event::Input(Ok(bytes))) => (
                State::Digesting,
                Action::Digest(bytes),
            ),
            (State::Selecting, _) => (State::Interrupted, Action::Report(AdapterError::ReadError)),
            (State::Forwarding, Event::Written(Err(()))) => (
                State::Interrupted,
                Action::Report(AdapterError::WriteError),
            ),
            (State::Digesting, Event::Parsed(parsed)) => match digest(parsed) {
                Delivery::Response(response) => (State::Delivering, Action::Respond(response)),
                Delivery::Notification(response) => (State::Delivering, Action::Notify(response)),
                Delivery::Dropped => (State::Selecting, Action::Select),
            },
            _ => (State::Selecting, Action::Select),
        }
    }
}

/// How far a modem has come.
pub struct Progress {
    state: State,
}

impl View for Progress {
    type V = Phase;

    closed spec fn view(&self) -> Phase {
        self.state.phase()
    }
}

/// The modem: the adapter's serial line and pins, the parse buffer, and the ends of the channels to
/// the controller, with how far it has come.
pub struct Esp8266Modem<UART, ENABLE, RESET, BUFFER, COMMANDS, RESPONSES, NOTIFICATIONS> {
    pub uart: UART,
    pub enable: ENABLE,
    pub reset: RESET,
    pub parse_buffer: BUFFER,
    pub command_consumer: COMMANDS,
    pub response_producer: RESPONSES,
    pub notification_producer: NOTIFICATIONS,
    pub progress: Progress,
}

impl<UART, ENABLE, RESET, BUFFER, COMMANDS, RESPONSES, NOTIFICATIONS> View for Esp8266Modem<
    UART,
    ENABLE,
    RESET,
    BUFFER,
    COMMANDS,
    RESPONSES,
    NOTIFICATIONS,
> {
    type V = Phase;

    open spec fn view(&self) -> Phase {
        self.progress@
    }
}

impl<UART, ENABLE, RESET, BUFFER, COMMANDS, RESPONSES, NOTIFICATIONS> Esp8266Modem<
    UART,
    ENABLE,
    RESET,
    BUFFER,
    COMMANDS,
    RESPONSES,
    NOTIFICATIONS,
> {
    /// A modem that was not started. The parse buffer is to be empty.
    pub fn new(
        uart: UART,
        enable: ENABLE,
        reset: RESET,
        parse_buffer: BUFFER,
        command_consumer: COMMANDS,
        response_producer: RESPONSES,
        notification_producer: NOTIFICATIONS,
    ) -> (modem: Self)
        ensures
            modem.uart == uart,
            modem.enable == enable,
            modem.reset == reset,
            modem.parse_buffer == parse_buffer,
            modem.command_consumer == command_consumer,
            modem.response_producer == response_producer,
            modem.notification_producer == notification_producer,
            modem@ == Phase::Idle,
            modem@.wf(),
    {
        Esp8266Modem {
            uart,
            enable,
            reset,
            parse_buffer,
            command_consumer,
            response_producer,
            notification_producer,
            progress: Progress { state: State::Idle },
        }
    }

    /// Whether the event is an outcome of the action that is under way.
    pub fn awaits(&self, event: &Event) -> (res: bool)
        ensures
            res == self@.awaits(*event),
    {
        match (&self.progress.state, event) {
            (State::Idle, Event::Start) => true,
            (State::RaisingEnable, Event::PinRaised(_)) => true,
            (State::RaisingReset, Event::PinRaised(_)) => true,
            (State::AwaitingReady(_), Event::ByteRead(_)) => true,
            (State::Configuring(_), Event::Written(_)) => true,
            (State::AwaitingOk(_, _), Event::ByteRead(_)) => true,
            (State::Selecting, Event::Command(_)) => true,
            (State::Selecting, Event::Input(_)) => true,
            (State::Forwarding, Event::Written(_)) => true,
            (State::Digesting, Event::Parsed(_)) => true,
            (State::Delivering, Event::Delivered) => true,
            (State::Interrupted, Event::Resume) => true,
            _ => false,
        }
    }

    /// Takes the outcome of the last action, and tells which one is next. The adapter is
    /// configured first; from then on commands are written to it, and what it sends is parsed and
    /// handed over, until an error is encountered. The error is reported, and the processing goes on
    /// when it is resumed.
    pub fn run(&mut self, event: Event) -> (action: Action)
        requires
            old(self)@.wf(),
            old(self)@.awaits(event),
        ensures
            (final(self)@, action) == old(self)@.next(event),
            final(self)@.wf(),
            final(self).uart == old(self).uart,
            final(self).enable == old(self).enable,
            final(self).reset == old(self).reset,
            final(self).parse_buffer == old(self).parse_buffer,
            final(self).command_consumer == old(self).command_consumer,
            final(self).response_producer == old(self).response_producer,
            final(self).notification_producer == old(self).notification_producer,
    {
        let mut state = State::Halted;
        core::mem::swap(&mut state, &mut self.progress.state);
        let (next, action) = state.next(event);
        self.progress.state = next;
        proof {
            lemma_next_wf(old(self)@, event);
        }
        action
    }
}

/// The next phase keeps what holds of every phase.
pub proof fn lemma_next_wf(phase: Phase, event: Event)
    requires
        phase.wf(),
        phase.awaits(event),
    ensures
        phase.next(event).0.wf(),
{
    lemma_marks();
    match (phase, event) {
        (Phase::AwaitingReady(seen), Event::ByteRead(Ok(byte))) => {
            let more = seen.push(byte);
            assert(more.take(more.len() as int) =~= more);
            assert forall|n: int| 0 <= n <= seen.len() implies seen.take(n) == #[trigger] more.take(
                n,
            ) by {
                assert(seen.take(n) =~= more.take(n));
            }
        },
        (Phase::AwaitingOk(_, seen), Event::ByteRead(Ok(byte))) => {
            let more = seen.push(byte);
            assert(more.take(more.len() as int) =~= more);
            assert forall|n: int| 0 <= n <= seen.len() implies seen.take(n) == #[trigger] more.take(
                n,
            ) by {
                assert(seen.take(n) =~= more.take(n));
            }
        },
        _ => {},
    }
}

} // verus!
