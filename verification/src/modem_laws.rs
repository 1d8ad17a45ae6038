//! What holds of every run of the modem.
use vstd::prelude::*;

use crate::error::AdapterError;
use crate::modem::{destination, lemma_next_wf, Action, Delivery, Event, Fault, Phase, Setting};
use crate::protocol::Response;
use crate::scan::{
    error_mark, law_what_replies_mean, lemma_marks, ok_mark, ready_mark, verdict,
};
use crate::text::Line;

verus! {

/// The phase of a modem after the given events.
pub open spec fn drive(phase: Phase, events: Seq<Event>) -> Phase
    decreases events.len(),
{
    if events.len() == 0 {
        phase
    } else {
        drive(phase, events.drop_last()).next(events.last()).0
    }
}

/// Whether each of the events is an outcome of the action that is under way when it comes.
pub open spec fn admissible(phase: Phase, events: Seq<Event>) -> bool
    decreases events.len(),
{
    events.len() > 0 ==> {
        &&& admissible(phase, events.drop_last())
        &&& drive(phase, events.drop_last()).awaits(events.last())
    }
}

/// The settings whose lines the modem asks to be written.
pub open spec fn made(phase: Phase, events: Seq<Event>) -> Seq<Setting>
    decreases events.len(),
{
    if events.len() == 0 {
        Seq::empty()
    } else {
        let before = made(phase, events.drop_last());
        match drive(phase, events.drop_last()).next(events.last()).1 {
            Action::Configure(setting) => before.push(setting),
            _ => before,
        }
    }
}

/// The commands that the modem asks to be written.
pub open spec fn forwarded(phase: Phase, events: Seq<Event>) -> Seq<Line>
    decreases events.len(),
{
    if events.len() == 0 {
        Seq::empty()
    } else {
        let before = forwarded(phase, events.drop_last());
        match drive(phase, events.drop_last()).next(events.last()).1 {
            Action::Forward(line) => before.push(line),
            _ => before,
        }
    }
}

/// The responses that the modem hands to the side that waits for responses.
pub open spec fn responded(phase: Phase, events: Seq<Event>) -> Seq<Response>
    decreases events.len(),
{
    if events.len() == 0 {
        Seq::empty()
    } else {
        let before = responded(phase, events.drop_last());
        match drive(phase, events.drop_last()).next(events.last()).1 {
            Action::Respond(response) => before.push(response),
            _ => before,
        }
    }
}

/// The responses that the modem hands to the side that listens to notifications.
pub open spec fn notified(phase: Phase, events: Seq<Event>) -> Seq<Response>
    decreases events.len(),
{
    if events.len() == 0 {
        Seq::empty()
    } else {
        let before = notified(phase, events.drop_last());
        match drive(phase, events.drop_last()).next(events.last()).1 {
            Action::Notify(response) => before.push(response),
            _ => before,
        }
    }
}

/// The bytes that the modem asks to be put into the parse buffer, one piece after the other.
pub open spec fn digested(phase: Phase, events: Seq<Event>) -> Seq<Vec<u8>>
    decreases events.len(),
{
    if events.len() == 0 {
        Seq::empty()
    } else {
        let before = digested(phase, events.drop_last());
        match drive(phase, events.drop_last()).next(events.last()).1 {
            Action::Digest(bytes) => before.push(bytes),
            _ => before,
        }
    }
}

/// The input among the events, one piece after the other.
pub open spec fn inputs(events: Seq<Event>) -> Seq<Vec<u8>>
    decreases events.len(),
{
    if events.len() == 0 {
        Seq::empty()
    } else {
        match events.last() {
            Event::Input(Ok(bytes)) => inputs(events.drop_last()).push(bytes),
            _ => inputs(events.drop_last()),
        }
    }
}

/// The commands among the events.
pub open spec fn commands(events: Seq<Event>) -> Seq<Line>
    decreases events.len(),
{
    if events.len() == 0 {
        Seq::empty()
    } else {
        match events.last() {
            Event::Command(line) => commands(events.drop_last()).push(line),
            _ => commands(events.drop_last()),
        }
    }
}

/// The responses among the events that belong to the side that waits for responses.
pub open spec fn answers(events: Seq<Event>) -> Seq<Response>
    decreases events.len(),
{
    if events.len() == 0 {
        Seq::empty()
    } else {
        let before = answers(events.drop_last());
        match events.last() {
            Event::Parsed(Ok(response)) => match response {
                Response::Closed(_) | Response::DataAvailable { .. } => before,
                Response::Nothing
                | Response::WifiConnected
                | Response::WifiDisconnect
                | Response::GotIp => before,
                _ => before.push(response),
            },
            _ => before,
        }
    }
}

/// The responses among the events that belong to the side that listens to notifications.
pub open spec fn notices(events: Seq<Event>) -> Seq<Response>
    decreases events.len(),
{
    if events.len() == 0 {
        Seq::empty()
    } else {
        let before = notices(events.drop_last());
        match events.last() {
            Event::Parsed(Ok(response)) => match response {
                Response::Closed(_) | Response::DataAvailable { .. } => before.push(response),
                _ => before,
            },
            _ => before,
        }
    }
}

/// All settings, in the order in which they are made.
pub open spec fn all_settings() -> Seq<Setting> {
    seq![Setting::DisableEcho, Setting::EnableMux, Setting::SetRecvMode, Setting::SetMode]
}

/// The events of reading the bytes one by one.
pub open spec fn reading(bytes: Seq<u8>) -> Seq<Event> {
    bytes.map_values(|byte: u8| Event::ByteRead(Ok(byte)))
}

/// Whether the announcement has not ended before the last of the bytes.
pub open spec fn not_ready_before_end(bytes: Seq<u8>) -> bool {
    forall|n: int| 0 <= n < bytes.len() ==> !ready_mark().is_suffix_of(#[trigger] bytes.take(n))
}

/// Whether the reply was not complete before the last of the bytes.
pub open spec fn not_judged_before_end(bytes: Seq<u8>) -> bool {
    forall|n: int| 0 <= n < bytes.len() ==> verdict(#[trigger] bytes.take(n)) is None
}

/// What every phase keeps is kept by every run.
pub proof fn law_runs_stay_well_formed(phase: Phase, events: Seq<Event>)
    requires
        phase.wf(),
        admissible(phase, events),
    ensures
        drive(phase, events).wf(),
    decreases events.len(),
{
    if events.len() > 0 {
        law_runs_stay_well_formed(phase, events.drop_last());
        lemma_next_wf(drive(phase, events.drop_last()), events.last());
    }
}

/// The settings are made in their order, each at most once. The modem takes commands only after all
/// of them, or, where reading failed before the adapter announced itself, after none.
pub proof fn law_settings_are_made_in_order(events: Seq<Event>)
    requires
        admissible(Phase::Idle, events),
    ensures
        made(Phase::Idle, events).is_prefix_of(all_settings()),
        drive(Phase::Idle, events).running() ==> {
            ||| made(Phase::Idle, events) == all_settings()
            ||| made(Phase::Idle, events) == Seq::<Setting>::empty()
        },
        match drive(Phase::Idle, events) {
            Phase::Configuring(setting) => {
                &&& made(Phase::Idle, events).len() > 0
                &&& made(Phase::Idle, events).last() == setting
            },
            Phase::AwaitingOk(setting, _) => {
                &&& made(Phase::Idle, events).len() > 0
                &&& made(Phase::Idle, events).last() == setting
            },
            Phase::Idle => made(Phase::Idle, events).len() == 0,
            Phase::RaisingEnable => made(Phase::Idle, events).len() == 0,
            Phase::RaisingReset => made(Phase::Idle, events).len() == 0,
            Phase::AwaitingReady(_) => made(Phase::Idle, events).len() == 0,
            _ => true,
        },
    decreases events.len(),
{
    if events.len() > 0 {
        let before = events.drop_last();
        law_settings_are_made_in_order(before);
    }
}

/// A modem that takes commands goes on to do so: it neither halts nor configures the adapter again.
/// Where an error interrupts it, it is ready for the next command as soon as it is resumed.
pub proof fn law_a_running_modem_keeps_running(phase: Phase, events: Seq<Event>)
    requires
        phase.running(),
        admissible(phase, events),
    ensures
        drive(phase, events).running(),
        made(phase, events) == Seq::<Setting>::empty(),
        drive(phase, events) is Interrupted ==> drive(phase, events).next(Event::Resume) == (
            Phase::Selecting,
            Action::Select,
        ),
    decreases events.len(),
{
    if events.len() > 0 {
        law_a_running_modem_keeps_running(phase, events.drop_last());
    }
}

/// Every command is written to the adapter, once, as it is, and in its order.
pub proof fn law_commands_are_forwarded_in_order(phase: Phase, events: Seq<Event>)
    requires
        admissible(phase, events),
    ensures
        forwarded(phase, events) == commands(events),
    decreases events.len(),
{
    if events.len() > 0 {
        law_commands_are_forwarded_in_order(phase, events.drop_last());
    }
}

/// Every response reaches the side where it belongs, once, as it is, and in its order.
pub proof fn law_responses_are_delivered_in_order(phase: Phase, events: Seq<Event>)
    requires
        admissible(phase, events),
    ensures
        responded(phase, events) == answers(events),
        notified(phase, events) == notices(events),
    decreases events.len(),
{
    if events.len() > 0 {
        law_responses_are_delivered_in_order(phase, events.drop_last());
    }
}

/// All input is put into the parse buffer, once, as it is, and in its order.
pub proof fn law_input_is_digested_in_order(phase: Phase, events: Seq<Event>)
    requires
        admissible(phase, events),
    ensures
        digested(phase, events) == inputs(events),
    decreases events.len(),
{
    if events.len() > 0 {
        law_input_is_digested_in_order(phase, events.drop_last());
    }
}

/// What is handed on is the response that was parsed. Messages about links that the adapter sends of
/// its own accord are notifications, four kinds of message are dropped, and all else is a response.
pub proof fn law_responses_are_handed_on_as_they_are(parsed: Result<Response, ()>)
    ensures
        match destination(parsed) {
            Delivery::Response(response) => {
                &&& parsed == Ok::<Response, ()>(response)
                &&& response !is Closed
                &&& response !is DataAvailable
                &&& response !is Nothing
                &&& response !is WifiConnected
                &&& response !is WifiDisconnect
                &&& response !is GotIp
            },
            Delivery::Notification(response) => {
                &&& parsed == Ok::<Response, ()>(response)
                &&& response is Closed || response is DataAvailable
            },
            Delivery::Dropped => parsed matches Ok(response) ==> {
                ||| response is Nothing
                ||| response is WifiConnected
                ||| response is WifiDisconnect
                ||| response is GotIp
            },
        },
{
}

/// Each setting has its line and its complaint.
pub proof fn law_what_settings_say(setting: Setting)
    ensures
        setting.text() == match setting {
            Setting::DisableEcho => "ATE0\r\n"@,
            Setting::EnableMux => "AT+CIPMUX=1\r\n"@,
            Setting::SetRecvMode => "AT+CIPRECVMODE=1\r\n"@,
            Setting::SetMode => "AT+CWMODE_CUR=1\r\n"@,
        },
        setting.complaint_text() == match setting {
            Setting::DisableEcho => "Error disabling echo mode"@,
            Setting::EnableMux => "Error enabling mux"@,
            Setting::SetRecvMode => "Error setting receive mode"@,
            Setting::SetMode => "Error setting station mode"@,
        },
{
}

/// A run can be taken in two parts.
pub proof fn law_runs_compose(phase: Phase, first: Seq<Event>, second: Seq<Event>)
    ensures
        drive(phase, first + second) == drive(drive(phase, first), second),
        admissible(phase, first + second) <==> {
            &&& admissible(phase, first)
            &&& admissible(drive(phase, first), second)
        },
    decreases second.len(),
{
    if second.len() == 0 {
        assert(first + second =~= first);
    } else {
        assert((first + second).drop_last() =~= first + second.drop_last());
        law_runs_compose(phase, first, second.drop_last());
    }
}

/// The announcement is noticed with its last byte, wherever it stands in what the adapter sends,
/// and never before. An adapter that does not announce itself in time halts the modem.
pub proof fn law_announcement_is_noticed(bytes: Seq<u8>)
    requires
        not_ready_before_end(bytes),
        bytes.len() <= 1025,
    ensures
        admissible(Phase::AwaitingReady(Seq::empty()), reading(bytes)),
        drive(Phase::AwaitingReady(Seq::empty()), reading(bytes)) == if bytes.len()
            > 1024 {
            Phase::Halted
        } else if ready_mark().is_suffix_of(bytes) {
            Phase::Configuring(Setting::DisableEcho)
        } else {
            Phase::AwaitingReady(bytes)
        },
    decreases bytes.len(),
{
    if bytes.len() == 0 {
        lemma_marks();
        assert(bytes =~= Seq::empty());
    } else {
        let before = bytes.drop_last();
        assert(reading(bytes).drop_last() =~= reading(before));
        assert(bytes.take(before.len() as int) =~= before);
        assert(before.push(bytes.last()) =~= bytes);
        assert forall|n: int| 0 <= n < before.len() implies !ready_mark().is_suffix_of(
            #[trigger] before.take(n),
        ) by {
            assert(before.take(n) =~= bytes.take(n));
        }
        law_announcement_is_noticed(before);
    }
}

/// A reply to a setting is judged by its first mark, with the last byte of the mark: the modem goes
/// on after one that accepts and halts after one that refuses. A reply that is too long halts the
/// modem too.
pub proof fn law_reply_is_judged(setting: Setting, bytes: Seq<u8>)
    requires
        not_judged_before_end(bytes),
        bytes.len() <= 64,
    ensures
        admissible(Phase::AwaitingOk(setting, Seq::empty()), reading(bytes)),
        drive(Phase::AwaitingOk(setting, Seq::empty()), reading(bytes)) == match verdict(bytes) {
            Some(Ok(())) => Phase::after_setting(setting).0,
            Some(Err(_)) => Phase::Halted,
            None => if bytes.len() == 64 {
                Phase::Halted
            } else {
                Phase::AwaitingOk(setting, bytes)
            },
        },
    decreases bytes.len(),
{
    if bytes.len() == 0 {
        lemma_marks();
        assert(bytes =~= Seq::empty());
    } else {
        let before = bytes.drop_last();
        assert(reading(bytes).drop_last() =~= reading(before));
        assert(bytes.take(before.len() as int) =~= before);
        assert(before.push(bytes.last()) =~= bytes);
        assert forall|n: int| 0 <= n < before.len() implies verdict(
            #[trigger] before.take(n),
        ) is None by {
            assert(before.take(n) =~= bytes.take(n));
        }
        law_reply_is_judged(setting, before);
    }
}

/// No reply both accepts and refuses.
pub proof fn law_replies_are_unambiguous(reply: Seq<u8>)
    ensures
        !(ok_mark().is_suffix_of(reply) && error_mark().is_suffix_of(reply)),
{
    lemma_marks();
    if ok_mark().is_suffix_of(reply) && error_mark().is_suffix_of(reply) {
        let last = reply.len() - 3;
        assert(reply[last] == reply.subrange(reply.len() - 4, reply.len() as int)[1]);
        assert(reply[last] == reply.subrange(reply.len() - 7, reply.len() as int)[4]);
    }
}

/// The events of making a setting: its line is written, and the adapter replies.
pub open spec fn making(reply: Seq<u8>) -> Seq<Event> {
    seq![Event::Written(Ok(()))] + reading(reply)
}

/// Whether the adapter accepts a setting with this reply, and says no more.
pub open spec fn accepts(reply: Seq<u8>) -> bool {
    &&& ok_mark().is_suffix_of(reply)
    &&& not_judged_before_end(reply)
    &&& reply.len() <= 64
}

/// A setting that the adapter accepts is followed by the next one, or by the first command.
pub proof fn law_accepted_setting_is_made(setting: Setting, reply: Seq<u8>)
    requires
        accepts(reply),
    ensures
        admissible(Phase::Configuring(setting), making(reply)),
        drive(Phase::Configuring(setting), making(reply)) == Phase::after_setting(setting).0,
{
    let written = seq![Event::Written(Ok(()))];
    assert(written.drop_last() =~= Seq::<Event>::empty());
    assert(written.last() == Event::Written(Ok(())));
    assert(drive(Phase::Configuring(setting), written.drop_last()) == Phase::Configuring(setting));
    assert(admissible(Phase::Configuring(setting), written.drop_last()));
    law_runs_compose(Phase::Configuring(setting), written, reading(reply));
    law_reply_is_judged(setting, reply);
}

/// The events up to the first byte that the adapter sends.
pub open spec fn starting() -> Seq<Event> {
    seq![Event::Start, Event::PinRaised(Ok(())), Event::PinRaised(Ok(()))]
}

/// An adapter that announces itself and accepts all settings is used, whatever else it sends
/// before it announces itself and in its replies.
pub proof fn law_adapter_is_configured(
    announcement: Seq<u8>,
    echo: Seq<u8>,
    mux: Seq<u8>,
    recv: Seq<u8>,
    mode: Seq<u8>,
)
    requires
        ready_mark().is_suffix_of(announcement),
        not_ready_before_end(announcement),
        announcement.len() <= 1024,
        accepts(echo),
        accepts(mux),
        accepts(recv),
        accepts(mode),
    ensures
        ({
            let events = starting() + reading(announcement) + making(echo) + making(mux) + making(
                recv,
            ) + making(mode);
            &&& admissible(Phase::Idle, events)
            &&& drive(Phase::Idle, events) == Phase::Selecting
            &&& made(Phase::Idle, events) == all_settings()
        }),
{
    let e0 = starting();
    let e1 = e0 + reading(announcement);
    let e2 = e1 + making(echo);
    let e3 = e2 + making(mux);
    let e4 = e3 + making(recv);
    let e5 = e4 + making(mode);
    lemma_starting();
    law_runs_compose(Phase::Idle, e0, reading(announcement));
    law_announcement_is_noticed(announcement);
    law_runs_compose(Phase::Idle, e1, making(echo));
    law_accepted_setting_is_made(Setting::DisableEcho, echo);
    law_runs_compose(Phase::Idle, e2, making(mux));
    law_accepted_setting_is_made(Setting::EnableMux, mux);
    law_runs_compose(Phase::Idle, e3, making(recv));
    law_accepted_setting_is_made(Setting::SetRecvMode, recv);
    law_runs_compose(Phase::Idle, e4, making(mode));
    law_accepted_setting_is_made(Setting::SetMode, mode);
    law_settings_are_made_in_order(e5);
    law_settings_are_made_in_order(e1);
    lemma_made_grows(Phase::Idle, e1, making(echo));
    lemma_made_grows(Phase::Idle, e2, making(mux));
    lemma_made_grows(Phase::Idle, e3, making(recv));
    lemma_made_grows(Phase::Idle, e4, making(mode));
}

/// The pins are raised one after the other, and then the first byte is awaited.
proof fn lemma_starting()
    ensures
        admissible(Phase::Idle, starting()),
        drive(Phase::Idle, starting()) == Phase::AwaitingReady(Seq::empty()),
{
    let e3 = starting();
    let e2 = e3.drop_last();
    let e1 = e2.drop_last();
    assert(e1.drop_last() =~= Seq::<Event>::empty());
    assert(drive(Phase::Idle, e1.drop_last()) == Phase::Idle);
    assert(admissible(Phase::Idle, e1.drop_last()));
    assert(drive(Phase::Idle, e1) == Phase::RaisingEnable);
    assert(admissible(Phase::Idle, e1));
    assert(drive(Phase::Idle, e2) == Phase::RaisingReset);
    assert(admissible(Phase::Idle, e2));
}

/// No setting is taken back.
proof fn lemma_made_grows(phase: Phase, first: Seq<Event>, second: Seq<Event>)
    ensures
        made(phase, first).len() <= made(phase, first + second).len(),
    decreases second.len(),
{
    if second.len() == 0 {
        assert(first + second =~= first);
    } else {
        assert((first + second).drop_last() =~= first + second.drop_last());
        lemma_made_grows(phase, first, second.drop_last());
    }
}

/// The modem halts exactly where a pin cannot be raised, where a setting cannot be written or its
/// reply cannot be read, where the adapter refuses a setting, and where it sends too much.
pub proof fn law_why_the_modem_halts(phase: Phase, event: Event)
    requires
        phase.wf(),
        phase.awaits(event),
    ensures
        phase.next(event).0 is Halted <==> phase.next(event).1 is Halt,
        phase.next(event).1 is Halt <==> match (phase, event) {
            (Phase::RaisingEnable, Event::PinRaised(raised)) => raised is Err,
            (Phase::RaisingReset, Event::PinRaised(raised)) => raised is Err,
            (Phase::AwaitingReady(seen), Event::ByteRead(read)) => {
                read is Ok && seen.len() == 1024
            },
            (Phase::Configuring(_), Event::Written(written)) => written is Err,
            (Phase::AwaitingOk(_, _), Event::ByteRead(Err(()))) => true,
            (Phase::AwaitingOk(_, seen), Event::ByteRead(Ok(byte))) => {
                ||| error_mark().is_suffix_of(seen.push(byte))
                ||| !ok_mark().is_suffix_of(seen.push(byte)) && seen.len() + 1 == 64
            },
            _ => false,
        },
        phase.next(event).1 matches Action::Halt(Fault::Configuration(_, error)) ==> error
            == AdapterError::UnableToInitialize,
{
    match (phase, event) {
        (Phase::AwaitingOk(_, seen), Event::ByteRead(Ok(byte))) => {
            law_replies_are_unambiguous(seen.push(byte));
        },
        _ => {},
    }
}

/// An error is reported exactly where the serial line fails while no setting is being made.
pub proof fn law_which_errors_are_reported(phase: Phase, event: Event)
    requires
        phase.wf(),
        phase.awaits(event),
    ensures
        phase.next(event).0 is Interrupted <==> phase.next(event).1 is Report,
        match phase.next(event).1 {
            Action::Report(error) => match (phase, event) {
                (Phase::AwaitingReady(_), Event::ByteRead(Err(()))) => {
                    error == AdapterError::UnableToInitialize
                },
                (Phase::Selecting, Event::Input(Err(()))) => error == AdapterError::ReadError,
                (Phase::Forwarding, Event::Written(Err(()))) => error == AdapterError::WriteError,
                _ => false,
            },
            _ => match (phase, event) {
                (Phase::AwaitingReady(_), Event::ByteRead(read)) => read is Ok,
                (Phase::Selecting, Event::Input(input)) => input is Ok,
                (Phase::Forwarding, Event::Written(written)) => written is Ok,
                _ => true,
            },
        },
{
}

/// What the modem asks for after the last of the events.
pub open spec fn action_after(events: Seq<Event>) -> Action {
    drive(Phase::Idle, events.drop_last()).next(events.last()).1
}

/// How many times a line was written, or could not be.
pub open spec fn writings(events: Seq<Event>) -> nat
    decreases events.len(),
{
    if events.len() == 0 {
        0
    } else {
        writings(events.drop_last()) + if events.last() is Written {
            1nat
        } else {
            0nat
        }
    }
}

/// The bytes that were read since anything else happened.
pub open spec fn recent(events: Seq<Event>) -> Seq<u8>
    decreases events.len(),
{
    if events.len() == 0 {
        Seq::empty()
    } else {
        match events.last() {
            Event::ByteRead(Ok(byte)) => recent(events.drop_last()).push(byte),
            _ => Seq::empty(),
        }
    }
}

/// Whether the last event is the outcome of writing a command.
pub open spec fn after_command(events: Seq<Event>) -> bool {
    events.len() >= 2 && events[events.len() - 2] is Command
}

/// The action that belongs to a byte that was read after the given number of lines, where the byte
/// is the last of those that were read since then. The adapter announces itself first, and then
/// replies to each line.
pub open spec fn action_for_bytes(lines: nat, bytes: Seq<u8>) -> Action {
    if lines == 0 {
        if bytes.len() > 1024 {
            Action::Halt(Fault::ReadyOverrun)
        } else if seq![114u8, 101u8, 97u8, 100u8, 121u8, 13u8, 10u8].is_suffix_of(bytes) {
            Action::Configure(all_settings()[0])
        } else {
            Action::ReadByte
        }
    } else if seq![79u8, 75u8, 13u8, 10u8].is_suffix_of(bytes) {
        if lines < 4 {
            Action::Configure(all_settings()[lines as int])
        } else {
            Action::Select
        }
    } else if seq![69u8, 82u8, 82u8, 79u8, 82u8, 13u8, 10u8].is_suffix_of(bytes) {
        Action::Halt(
            Fault::Configuration(
                all_settings()[lines - 1],
                AdapterError::UnableToInitialize,
            ),
        )
    } else if bytes.len() >= 64 {
        Action::Halt(Fault::ReplyOverrun(all_settings()[lines - 1]))
    } else {
        Action::ReadByte
    }
}

/// What the modem asks for is settled by what has happened: by the last event, by the bytes that
/// were read since a line was written, and by how many lines were written.
pub proof fn law_what_the_modem_asks_for(events: Seq<Event>)
    requires
        admissible(Phase::Idle, events),
        events.len() > 0,
    ensures
        action_after(events) == match events.last() {
            Event::Start => Action::RaiseEnable,
            Event::PinRaised(Ok(())) => if events.len() == 2 {
                Action::RaiseReset
            } else {
                Action::ReadByte
            },
            Event::PinRaised(Err(())) => if events.len() == 2 {
                Action::Halt(Fault::Enable)
            } else {
                Action::Halt(Fault::Reset)
            },
            Event::ByteRead(Ok(_)) => action_for_bytes(writings(events), recent(events)),
            Event::ByteRead(Err(())) => if writings(events) == 0 {
                Action::Report(AdapterError::UnableToInitialize)
            } else {
                Action::Halt(
                    Fault::Configuration(
                        all_settings()[writings(events) - 1],
                        AdapterError::UnableToInitialize,
                    ),
                )
            },
            Event::Written(Ok(())) => if after_command(events) {
                Action::Select
            } else {
                Action::ReadByte
            },
            Event::Written(Err(())) => if after_command(events) {
                Action::Report(AdapterError::WriteError)
            } else {
                Action::Halt(
                    Fault::Configuration(
                        all_settings()[writings(events) - 1],
                        AdapterError::UnableToInitialize,
                    ),
                )
            },
            Event::Command(line) => Action::Forward(line),
            Event::Input(Ok(bytes)) => Action::Digest(bytes),
            Event::Input(Err(())) => Action::Report(AdapterError::ReadError),
            Event::Parsed(Ok(response)) => match response {
                Response::Closed(_) | Response::DataAvailable { .. } => Action::Notify(response),
                Response::Nothing
                | Response::WifiConnected
                | Response::WifiDisconnect
                | Response::GotIp => Action::Select,
                _ => Action::Respond(response),
            },
            Event::Parsed(Err(())) => Action::Select,
            Event::Delivered => Action::Select,
            Event::Resume => Action::Select,
        },
{
    let before = events.drop_last();
    lemma_phase_by_history(before);
    lemma_marks();
    law_what_replies_mean(recent(events));
}

/// The modem can be told the outcomes of what it has asked for, and nothing else. Nothing is left to
/// be told where it has halted.
pub proof fn law_the_modem_awaits_what_it_asked_for(events: Seq<Event>, event: Event)
    requires
        admissible(Phase::Idle, events),
    ensures
        admissible(Phase::Idle, events.push(event)) <==> if events.len() == 0 {
            event is Start
        } else {
            match action_after(events) {
                Action::RaiseEnable => event is PinRaised,
                Action::RaiseReset => event is PinRaised,
                Action::ReadByte => event is ByteRead,
                Action::Configure(_) => event is Written,
                Action::Select => event is Command || event is Input,
                Action::Forward(_) => event is Written,
                Action::Digest(_) => event is Parsed,
                Action::Respond(_) => event is Delivered,
                Action::Notify(_) => event is Delivered,
                Action::Report(_) => event is Resume,
                Action::Halt(_) => false,
            }
        },
{
    assert(events.push(event).drop_last() =~= events);
    if events.len() > 0 {
        lemma_phase_by_history(events.drop_last());
    }
}

/// How the phase follows from what has happened.
proof fn lemma_phase_by_history(events: Seq<Event>)
    requires
        admissible(Phase::Idle, events),
    ensures
        drive(Phase::Idle, events).wf(),
        match drive(Phase::Idle, events) {
            Phase::Idle => events.len() == 0 && writings(events) == 0,
            Phase::RaisingEnable => events.len() == 1 && writings(events) == 0,
            Phase::RaisingReset => events.len() == 2 && writings(events) == 0,
            Phase::AwaitingReady(seen) => {
                &&& events.len() >= 3
                &&& writings(events) == 0
                &&& recent(events) == seen
            },
            Phase::Configuring(setting) => {
                &&& events.len() >= 3
                &&& writings(events) < 4
                &&& all_settings()[writings(events) as int] == setting
                &&& events.last() is ByteRead
            },
            Phase::AwaitingOk(setting, seen) => {
                &&& events.len() >= 3
                &&& 1 <= writings(events) <= 4
                &&& all_settings()[writings(events) - 1] == setting
                &&& recent(events) == seen
            },
            Phase::Forwarding => events.len() >= 3 && events.last() is Command,
            _ => events.len() >= 2,
        },
    decreases events.len(),
{
    if events.len() > 0 {
        let before = events.drop_last();
        lemma_phase_by_history(before);
        lemma_next_wf(drive(Phase::Idle, before), events.last());
    }
}

} // verus!
