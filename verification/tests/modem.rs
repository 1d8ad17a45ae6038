use esp8266::modem::{digest, Action, Delivery, Event, Fault, Setting};
use esp8266::net::IpAddressV4;
use esp8266::protocol::{
    FirmwareInfo, IpAddresses, ResolverAddresses, Response, WifiConnectionFailure,
};
use esp8266::text::Line;
use esp8266::{AdapterError, Esp8266Modem};

type Modem = Esp8266Modem<u8, u8, u8, u8, u8, u8, u8>;

fn modem() -> Modem {
    Esp8266Modem::new(1, 2, 3, 4, 5, 6, 7)
}

fn step(modem: &mut Modem, event: Event) -> Action {
    assert!(modem.awaits(&event));
    modem.run(event)
}

fn started() -> Modem {
    let mut m = modem();
    assert!(matches!(step(&mut m, Event::Start), Action::RaiseEnable));
    assert!(matches!(step(&mut m, Event::PinRaised(Ok(()))), Action::RaiseReset));
    assert!(matches!(step(&mut m, Event::PinRaised(Ok(()))), Action::ReadByte));
    m
}

/// Reads all bytes, of which only the last may lead to more than the next byte.
fn read(m: &mut Modem, bytes: &[u8]) -> Action {
    let (last, before) = bytes.split_last().unwrap();
    for b in before {
        assert!(matches!(step(m, Event::ByteRead(Ok(*b))), Action::ReadByte));
    }
    step(m, Event::ByteRead(Ok(*last)))
}

fn announced() -> Modem {
    let mut m = started();
    assert!(matches!(
        read(&mut m, b"\r\n ets Jan  8 2013\r\n\r\nready\r\n"),
        Action::Configure(Setting::DisableEcho)
    ));
    m
}

fn configured() -> Modem {
    let mut m = announced();
    assert!(matches!(step(&mut m, Event::Written(Ok(()))), Action::ReadByte));
    assert!(matches!(
        read(&mut m, b"ATE0\r\n\r\nOK\r\n"),
        Action::Configure(Setting::EnableMux)
    ));
    assert!(matches!(step(&mut m, Event::Written(Ok(()))), Action::ReadByte));
    assert!(matches!(
        read(&mut m, b"\r\nOK\r\n"),
        Action::Configure(Setting::SetRecvMode)
    ));
    assert!(matches!(step(&mut m, Event::Written(Ok(()))), Action::ReadByte));
    assert!(matches!(read(&mut m, b"OK\r\n"), Action::Configure(Setting::SetMode)));
    assert!(matches!(step(&mut m, Event::Written(Ok(()))), Action::ReadByte));
    assert!(matches!(read(&mut m, b"\r\nOK\r\n"), Action::Select));
    m
}

#[test]
fn a_new_modem_holds_what_it_was_given() {
    let m = modem();
    assert_eq!((m.uart, m.enable, m.reset, m.parse_buffer), (1, 2, 3, 4));
    assert_eq!(
        (m.command_consumer, m.response_producer, m.notification_producer),
        (5, 6, 7)
    );
    assert!(m.awaits(&Event::Start));
    assert!(!m.awaits(&Event::Resume));
}

#[test]
fn settings_have_their_lines() {
    assert_eq!(Setting::DisableEcho.line(), "ATE0\r\n");
    assert_eq!(Setting::EnableMux.line(), "AT+CIPMUX=1\r\n");
    assert_eq!(Setting::SetRecvMode.line(), "AT+CIPRECVMODE=1\r\n");
    assert_eq!(Setting::SetMode.line(), "AT+CWMODE_CUR=1\r\n");
}

#[test]
fn settings_have_their_complaints() {
    assert_eq!(Setting::DisableEcho.complaint(), "Error disabling echo mode");
    assert_eq!(Setting::EnableMux.complaint(), "Error enabling mux");
    assert_eq!(Setting::SetRecvMode.complaint(), "Error setting receive mode");
    assert_eq!(Setting::SetMode.complaint(), "Error setting station mode");
}

#[test]
fn settings_have_their_order() {
    assert_eq!(Setting::DisableEcho.next(), Some(Setting::EnableMux));
    assert_eq!(Setting::EnableMux.next(), Some(Setting::SetRecvMode));
    assert_eq!(Setting::SetRecvMode.next(), Some(Setting::SetMode));
    assert_eq!(Setting::SetMode.next(), None);
}

#[test]
fn an_adapter_that_accepts_all_settings_is_used() {
    let m = configured();
    assert!(m.awaits(&Event::Input(Ok(vec![]))));
    assert!(m.awaits(&Event::Command(Line::from_text("AT").unwrap())));
}

#[test]
fn a_pin_that_cannot_be_raised_halts_the_modem() {
    let mut m = modem();
    step(&mut m, Event::Start);
    assert!(matches!(
        step(&mut m, Event::PinRaised(Err(()))),
        Action::Halt(Fault::Enable)
    ));
    let mut m = modem();
    step(&mut m, Event::Start);
    step(&mut m, Event::PinRaised(Ok(())));
    assert!(matches!(
        step(&mut m, Event::PinRaised(Err(()))),
        Action::Halt(Fault::Reset)
    ));
    assert!(!m.awaits(&Event::Start));
    assert!(!m.awaits(&Event::Resume));
}

#[test]
fn reading_that_fails_before_the_announcement_is_reported() {
    let mut m = started();
    read(&mut m, b"read");
    assert!(matches!(
        step(&mut m, Event::ByteRead(Err(()))),
        Action::Report(AdapterError::UnableToInitialize)
    ));
    assert!(matches!(step(&mut m, Event::Resume), Action::Select));
}

#[test]
fn an_adapter_that_sends_too_much_before_its_announcement_halts_the_modem() {
    let mut m = started();
    assert!(matches!(read(&mut m, &[b'.'; 1024]), Action::ReadByte));
    assert!(matches!(
        step(&mut m, Event::ByteRead(Ok(b'.'))),
        Action::Halt(Fault::ReadyOverrun)
    ));
}

#[test]
fn an_announcement_may_end_at_the_capacity() {
    let mut m = started();
    let mut bytes = vec![b'.'; 1017];
    bytes.extend_from_slice(b"ready\r\n");
    assert!(matches!(
        read(&mut m, &bytes),
        Action::Configure(Setting::DisableEcho)
    ));
}

#[test]
fn reading_may_fail_with_the_capacity_used_up() {
    let mut m = started();
    read(&mut m, &[b'.'; 1024]);
    assert!(matches!(
        step(&mut m, Event::ByteRead(Err(()))),
        Action::Report(AdapterError::UnableToInitialize)
    ));
}

#[test]
fn a_setting_that_cannot_be_written_halts_the_modem() {
    let mut m = announced();
    assert!(matches!(
        step(&mut m, Event::Written(Err(()))),
        Action::Halt(Fault::Configuration(
            Setting::DisableEcho,
            AdapterError::UnableToInitialize
        ))
    ));
}

#[test]
fn a_setting_that_is_refused_halts_the_modem() {
    let mut m = announced();
    step(&mut m, Event::Written(Ok(())));
    read(&mut m, b"OK\r\n");
    step(&mut m, Event::Written(Ok(())));
    assert!(matches!(
        read(&mut m, b"\r\nERROR\r\n"),
        Action::Halt(Fault::Configuration(
            Setting::EnableMux,
            AdapterError::UnableToInitialize
        ))
    ));
}

#[test]
fn a_reply_that_cannot_be_read_halts_the_modem() {
    let mut m = announced();
    step(&mut m, Event::Written(Ok(())));
    read(&mut m, b"O");
    assert!(matches!(
        step(&mut m, Event::ByteRead(Err(()))),
        Action::Halt(Fault::Configuration(
            Setting::DisableEcho,
            AdapterError::UnableToInitialize
        ))
    ));
}

#[test]
fn a_reply_that_is_too_long_halts_the_modem() {
    let mut m = announced();
    step(&mut m, Event::Written(Ok(())));
    assert!(matches!(
        read(&mut m, &[b'.'; 64]),
        Action::Halt(Fault::ReplyOverrun(Setting::DisableEcho))
    ));
}

#[test]
fn a_reply_may_end_at_the_capacity() {
    let mut m = announced();
    step(&mut m, Event::Written(Ok(())));
    let mut bytes = vec![b'.'; 60];
    bytes.extend_from_slice(b"OK\r\n");
    assert!(matches!(
        read(&mut m, &bytes),
        Action::Configure(Setting::EnableMux)
    ));
}

#[test]
fn commands_are_forwarded_in_order() {
    let mut m = configured();
    for text in ["AT+CIPSTA_CUR?\r\n", "AT+CIPCLOSE=0\r\n"] {
        let line = Line::from_text(text).unwrap();
        match step(&mut m, Event::Command(line)) {
            Action::Forward(line) => assert_eq!(line.as_bytes(), text.as_bytes()),
            _ => panic!("the command was not forwarded"),
        }
        assert!(matches!(step(&mut m, Event::Written(Ok(()))), Action::Select));
    }
}

#[test]
fn a_command_that_cannot_be_written_is_reported() {
    let mut m = configured();
    step(&mut m, Event::Command(Line::from_text("AT\r\n").unwrap()));
    assert!(matches!(
        step(&mut m, Event::Written(Err(()))),
        Action::Report(AdapterError::WriteError)
    ));
    assert!(matches!(step(&mut m, Event::Resume), Action::Select));
}

#[test]
fn input_that_cannot_be_read_is_reported() {
    let mut m = configured();
    assert!(matches!(
        step(&mut m, Event::Input(Err(()))),
        Action::Report(AdapterError::ReadError)
    ));
    assert!(matches!(step(&mut m, Event::Resume), Action::Select));
}

#[test]
fn input_is_digested_and_delivered() {
    let mut m = configured();
    match step(&mut m, Event::Input(Ok(vec![b'O', b'K']))) {
        Action::Digest(bytes) => assert_eq!(bytes, b"OK"),
        _ => panic!("the input was not digested"),
    }
    match step(&mut m, Event::Parsed(Ok(Response::Connect(3)))) {
        Action::Respond(response) => assert_eq!(response, Response::Connect(3)),
        _ => panic!("the response was not handed over"),
    }
    assert!(matches!(step(&mut m, Event::Delivered), Action::Select));
    step(&mut m, Event::Input(Ok(vec![b'+'])));
    match step(&mut m, Event::Parsed(Ok(Response::Closed(2)))) {
        Action::Notify(response) => assert_eq!(response, Response::Closed(2)),
        _ => panic!("the notification was not handed over"),
    }
    assert!(matches!(step(&mut m, Event::Delivered), Action::Select));
    step(&mut m, Event::Input(Ok(vec![b'\r'])));
    assert!(matches!(step(&mut m, Event::Parsed(Err(()))), Action::Select));
}

#[test]
fn responses_go_to_the_side_that_waits_for_them() {
    let ip = IpAddressV4(192, 168, 1, 2);
    for r in [
        Response::Okay,
        Response::Error,
        Response::FirmwareInfo(FirmwareInfo { major: 1, minor: 7, patch: 0, build: 0 }),
        Response::Connect(0),
        Response::ReadyForData,
        Response::ReceivedDataToSend(12),
        Response::DataReceived([5; 512], 3),
        Response::SendOk,
        Response::SendFail,
        Response::WifiConnectionFailure(WifiConnectionFailure::WrongPassword),
        Response::IpAddress(ip),
        Response::Resolvers(ResolverAddresses { resolver1: ip, resolver2: None }),
        Response::DnsFail,
        Response::UnlinkFail,
        Response::IpAddresses(IpAddresses { ip, gateway: ip, netmask: ip }),
    ] {
        match digest(Ok(r)) {
            Delivery::Response(out) => assert_eq!(out, r),
            _ => panic!("{:?} is a response", r),
        }
    }
}

#[test]
fn notifications_go_to_the_side_that_listens_to_them() {
    for r in [
        Response::Closed(4),
        Response::DataAvailable { link_id: 1, len: 80 },
    ] {
        match digest(Ok(r)) {
            Delivery::Notification(out) => assert_eq!(out, r),
            _ => panic!("{:?} is a notification", r),
        }
    }
}

#[test]
fn other_messages_are_dropped() {
    for r in [
        Response::Nothing,
        Response::WifiConnected,
        Response::WifiDisconnect,
        Response::GotIp,
    ] {
        assert!(matches!(digest(Ok(r)), Delivery::Dropped));
    }
    assert!(matches!(digest(Err(())), Delivery::Dropped));
}
