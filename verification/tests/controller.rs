use esp8266::net::{
    IpAddress, IpAddressV4, IpProtocol, Join, JoinError, SocketAddress, TcpError,
};
use esp8266::operations::{Drain, Joining, Read, Reply, Step, Task, Write};
use esp8266::protocol::{
    Command, ConnectionType, IpAddresses, Response, WiFiMode, WifiConnectionFailure,
};
use esp8266::text::Line;
use esp8266::{Esp8266Controller, Esp8266Driver, BUFFER_LEN};

fn controller() -> Esp8266Controller<u8, u8, u8, u8> {
    Esp8266Controller::new(1, 2, 3, 4)
}

fn addresses() -> Response {
    Response::IpAddresses(IpAddresses {
        ip: IpAddressV4(10, 0, 0, 7),
        gateway: IpAddressV4(10, 0, 0, 1),
        netmask: IpAddressV4(255, 255, 255, 0),
    })
}

fn data(bytes: &[u8]) -> Response {
    let mut inbound = [0xaa; BUFFER_LEN];
    inbound[..bytes.len()].copy_from_slice(bytes);
    Response::DataReceived(inbound, bytes.len())
}

fn drain_step(op: &mut Drain, reply: Reply) -> Step<'static, ()> {
    assert!(op.is_awaiting(&reply));
    op.resume(reply)
}

fn write_step(op: &mut Write, reply: Reply) -> Step<'static, Result<usize, TcpError>> {
    assert!(op.is_awaiting(&reply));
    op.resume(reply)
}

fn read_step(op: &mut Read, reply: Reply, buf: &mut [u8]) -> Step<'static, Result<usize, TcpError>> {
    assert!(op.is_awaiting(&reply));
    op.resume(reply, buf)
}

fn join_step(op: &mut Joining, response: Response) -> Step<'static, Result<IpAddress, JoinError>> {
    let reply = Reply::Response(response);
    assert!(op.is_awaiting(&reply));
    op.resume(reply)
}

/// A write over an open socket, up to the announcement.
fn announced(handle: u8, buf: &[u8]) -> Write {
    let (mut op, first) = controller().write(handle, buf);
    assert!(matches!(first, Step::Perform(Task::PollNotification)));
    match write_step(&mut op, Reply::Notification(None)) {
        Step::Perform(Task::CheckSocket(h)) => assert_eq!(h, handle),
        _ => panic!("the socket was not checked"),
    }
    match write_step(&mut op, Reply::SocketChecked(false)) {
        Step::Perform(Task::Request(command)) => assert_eq!(
            command,
            Command::Send { link_id: handle as usize, len: buf.len() }
        ),
        _ => panic!("the data was not announced"),
    }
    op
}

/// Goes on with a read over an open socket, up to the question for data of the given length.
fn asked(op: &mut Read, buf: &mut [u8], wanted: usize) {
    assert!(matches!(
        read_step(op, Reply::Notification(None), buf),
        Step::Perform(Task::CheckSocket(6))
    ));
    match read_step(op, Reply::SocketChecked(false), buf) {
        Step::Perform(Task::Request(command)) => {
            assert_eq!(command, Command::Receive { link_id: 6, len: wanted })
        }
        _ => panic!("no data was asked for"),
    }
}

#[test]
fn a_driver_is_split_into_its_two_sides() {
    let mut driver = Esp8266Driver::new("uart", "enable", "reset");
    assert!(driver.is_whole());
    let (c, m) = driver.initialize("buffer", "pool", (1, 2), (3, 4), (5, 6));
    assert!(!driver.is_whole());
    assert_eq!((m.uart, m.enable, m.reset), ("uart", "enable", "reset"));
    assert_eq!((m.parse_buffer, c.socket_pool), ("buffer", "pool"));
    assert_eq!((c.command_producer, m.command_consumer), (1, 2));
    assert_eq!((m.response_producer, c.response_consumer), (3, 4));
    assert_eq!((m.notification_producer, c.notification_consumer), (5, 6));
}

#[test]
fn a_command_is_sent_with_its_end() {
    let line = controller().send(Line::from_text("AT+CIPRECVDATA=0,512").unwrap());
    assert_eq!(line.as_bytes(), b"AT+CIPRECVDATA=0,512\r\n");
}

#[test]
fn the_role_is_set_where_the_adapter_accepts_it() {
    let c = controller();
    assert_eq!(
        c.set_wifi_mode(WiFiMode::Station),
        Command::SetMode(WiFiMode::Station)
    );
    assert_eq!(c.set_wifi_mode_result(Response::Okay), Ok(()));
    assert_eq!(c.set_wifi_mode_result(Response::Error), Err(()));
    assert_eq!(c.set_wifi_mode_result(Response::SendOk), Err(()));
}

#[test]
fn the_address_is_the_one_that_is_reported() {
    let c = controller();
    assert_eq!(c.get_ip_address(), Command::QueryIpAddress);
    assert_eq!(
        c.get_ip_address_result(addresses()),
        Ok(IpAddress::V4(IpAddressV4(10, 0, 0, 7)))
    );
    assert_eq!(c.get_ip_address_result(Response::Okay), Err(()));
    assert_eq!(
        c.get_ip_address_result(Response::IpAddress(IpAddressV4(1, 2, 3, 4))),
        Err(())
    );
}

#[test]
fn an_open_access_point_is_not_joined() {
    let (op, step) = controller().join(&Join::Open);
    assert!(matches!(step, Step::Finish(Err(JoinError::Unknown))));
    assert!(!op.is_awaiting(&Reply::Response(Response::Okay)));
}

#[test]
fn an_access_point_is_joined_and_the_address_returned() {
    let info = Join::Wpa { ssid: "home".to_string(), password: "secret".to_string() };
    let c = controller();
    let (mut op, step) = c.join(&info);
    match step {
        Step::Perform(Task::Request(command)) => assert_eq!(
            command,
            Command::JoinAp { ssid: "home", password: "secret" }
        ),
        _ => panic!("the command to join was not sent"),
    }
    match join_step(&mut op, Response::Okay) {
        Step::Perform(Task::Request(command)) => assert_eq!(command, Command::QueryIpAddress),
        _ => panic!("the addresses were not asked for"),
    }
    assert!(matches!(
        join_step(&mut op, addresses()),
        Step::Finish(Ok(IpAddress::V4(IpAddressV4(10, 0, 0, 7))))
    ));
}

#[test]
fn a_failure_to_connect_is_an_unknown_error() {
    let (mut op, _) = controller().join_wep("home", "wrong");
    assert!(matches!(
        join_step(
            &mut op,
            Response::WifiConnectionFailure(WifiConnectionFailure::WrongPassword)
        ),
        Step::Finish(Err(JoinError::Unknown))
    ));
}

#[test]
fn another_response_is_a_failure_to_associate() {
    for response in [Response::Error, Response::SendFail, addresses()] {
        let (mut op, _) = controller().join_wep("home", "secret");
        assert!(matches!(
            join_step(&mut op, response),
            Step::Finish(Err(JoinError::UnableToAssociate))
        ));
    }
}

#[test]
fn a_missing_address_is_an_unknown_error() {
    let (mut op, _) = controller().join_wep("home", "secret");
    join_step(&mut op, Response::Okay);
    assert!(matches!(
        join_step(&mut op, Response::Okay),
        Step::Finish(Err(JoinError::Unknown))
    ));
}

#[test]
fn reported_sockets_are_closed_in_order() {
    let (mut op, first) = controller().process_notifications();
    assert!(matches!(first, Step::Perform(Task::PollNotification)));
    assert!(matches!(
        drain_step(&mut op, Reply::Notification(Some(Response::Closed(3)))),
        Step::Perform(Task::CloseSocket(3))
    ));
    assert!(matches!(
        drain_step(&mut op, Reply::SocketClosed),
        Step::Perform(Task::PollNotification)
    ));
    for other in [
        Response::DataAvailable { link_id: 2, len: 9 },
        Response::Connect(1),
        Response::Okay,
    ] {
        assert!(matches!(
            drain_step(&mut op, Reply::Notification(Some(other))),
            Step::Perform(Task::PollNotification)
        ));
    }
    assert!(matches!(
        drain_step(&mut op, Reply::Notification(Some(Response::Closed(257)))),
        Step::Perform(Task::CloseSocket(1))
    ));
    assert!(!op.is_awaiting(&Reply::Notification(None)));
    drain_step(&mut op, Reply::SocketClosed);
    assert!(matches!(
        drain_step(&mut op, Reply::Notification(None)),
        Step::Finish(())
    ));
}

#[test]
fn a_socket_is_connected_by_tcp() {
    let c = controller();
    let dst = SocketAddress { ip: IpAddress::V4(IpAddressV4(8, 8, 4, 4)), port: 443 };
    for proto in [IpProtocol::Tcp, IpProtocol::Udp] {
        assert_eq!(
            c.connect(2, proto, dst),
            Command::StartConnection(2, ConnectionType::TCP, dst)
        );
    }
    assert_eq!(c.connect_result(Response::Connect(9)), Ok(()));
    assert_eq!(c.connect_result(Response::Okay), Err(TcpError::ConnectError));
    assert_eq!(c.connect_result(Response::Error), Err(TcpError::ConnectError));
}

#[test]
fn data_is_announced_and_sent_once() {
    let mut op = announced(4, b"hello");
    assert!(matches!(
        write_step(&mut op, Reply::Response(Response::Okay)),
        Step::Perform(Task::Receive)
    ));
    match write_step(&mut op, Reply::Response(Response::ReadyForData)) {
        Step::Perform(Task::Transmit(line)) => assert_eq!(line.as_bytes(), b"hello"),
        _ => panic!("the data was not sent"),
    }
    assert!(matches!(
        write_step(&mut op, Reply::Response(Response::ReceivedDataToSend(2))),
        Step::Perform(Task::Receive)
    ));
    assert!(matches!(
        write_step(&mut op, Reply::Response(Response::ReceivedDataToSend(5))),
        Step::Perform(Task::Receive)
    ));
    assert!(matches!(
        write_step(&mut op, Reply::Response(Response::SendOk)),
        Step::Finish(Ok(5))
    ));
    assert!(!op.is_awaiting(&Reply::Response(Response::SendOk)));
}

#[test]
fn data_that_is_not_counted_counts_as_none() {
    let mut op = announced(4, b"hello");
    write_step(&mut op, Reply::Response(Response::Okay));
    write_step(&mut op, Reply::Response(Response::ReadyForData));
    assert!(matches!(
        write_step(&mut op, Reply::Response(Response::SendOk)),
        Step::Finish(Ok(0))
    ));
}

#[test]
fn nothing_is_sent_over_a_closed_socket() {
    let (mut op, _) = controller().write(4, b"hello");
    assert!(matches!(
        write_step(&mut op, Reply::Notification(Some(Response::Closed(4)))),
        Step::Perform(Task::CloseSocket(4))
    ));
    write_step(&mut op, Reply::SocketClosed);
    write_step(&mut op, Reply::Notification(None));
    assert!(matches!(
        write_step(&mut op, Reply::SocketChecked(true)),
        Step::Finish(Err(TcpError::SocketClosed))
    ));
}

#[test]
fn an_unexpected_response_is_a_write_error() {
    let good = [Response::Okay, Response::ReadyForData, Response::ReceivedDataToSend(1)];
    for n in 0..=good.len() {
        let mut op = announced(0, b"x");
        for r in &good[..n] {
            write_step(&mut op, Reply::Response(*r));
        }
        assert!(matches!(
            write_step(&mut op, Reply::Response(Response::SendFail)),
            Step::Finish(Err(TcpError::WriteError))
        ));
    }
}

#[test]
fn data_that_cannot_be_sent_must_not_be_prompted_for() {
    for buf in [vec![b'x'; 129], vec![0xff]] {
        let mut op = announced(0, &buf);
        write_step(&mut op, Reply::Response(Response::Okay));
        assert!(!op.is_awaiting(&Reply::Response(Response::ReadyForData)));
        assert!(op.is_awaiting(&Reply::Response(Response::Error)));
    }
}

#[test]
fn data_fills_the_buffer() {
    let mut buf = [1u8; 6];
    let (mut op, first) = controller().read(6, buf.len());
    assert!(matches!(first, Step::Perform(Task::PollNotification)));
    asked(&mut op, &mut buf, 6);
    assert!(matches!(
        read_step(&mut op, Reply::Response(data(b"abcd")), &mut buf),
        Step::Perform(Task::PollNotification)
    ));
    assert_eq!(&buf, b"abcd\x01\x01");
    asked(&mut op, &mut buf, 2);
    assert!(matches!(
        read_step(&mut op, Reply::Response(data(b"ef")), &mut buf),
        Step::Finish(Ok(6))
    ));
    assert_eq!(&buf, b"abcdef");
    assert!(!op.is_awaiting(&Reply::Notification(None)));
}

#[test]
fn no_more_is_asked_for_than_a_response_can_carry() {
    let mut buf = [0u8; 700];
    let (mut op, _) = controller().read(6, buf.len());
    asked(&mut op, &mut buf, 512);
    read_step(&mut op, Reply::Response(data(&[9; 512])), &mut buf);
    asked(&mut op, &mut buf, 188);
    assert!(!op.is_awaiting(&Reply::Response(data(&[9; 189]))));
    assert!(!op.is_awaiting(&Reply::Response(Response::DataReceived([0; 512], 513))));
    assert!(matches!(
        read_step(&mut op, Reply::Response(data(&[9; 188])), &mut buf),
        Step::Finish(Ok(700))
    ));
    assert_eq!(buf, [9; 700]);
}

#[test]
fn a_read_ends_where_there_is_no_more_data() {
    for end in [Response::Okay, data(b"")] {
        let mut buf = [0u8; 8];
        let (mut op, _) = controller().read(6, buf.len());
        asked(&mut op, &mut buf, 8);
        read_step(&mut op, Reply::Response(data(b"xyz")), &mut buf);
        asked(&mut op, &mut buf, 5);
        assert!(matches!(
            read_step(&mut op, Reply::Response(end), &mut buf),
            Step::Finish(Ok(3))
        ));
        assert_eq!(&buf[..3], b"xyz");
    }
}

#[test]
fn a_read_without_data_returns_none() {
    let mut buf = [7u8; 2];
    let (mut op, _) = controller().read(6, buf.len());
    asked(&mut op, &mut buf, 2);
    assert!(matches!(
        read_step(&mut op, Reply::Response(Response::Okay), &mut buf),
        Step::Finish(Ok(0))
    ));
    assert_eq!(buf, [7, 7]);
}

#[test]
fn a_read_into_an_empty_buffer_returns_none() {
    let mut buf = [0u8; 0];
    let (mut op, _) = controller().read(6, buf.len());
    asked(&mut op, &mut buf, 0);
    assert!(matches!(
        read_step(&mut op, Reply::Response(data(b"")), &mut buf),
        Step::Finish(Ok(0))
    ));
}

#[test]
fn a_read_over_a_closed_socket_fails() {
    let mut buf = [7u8; 2];
    let (mut op, _) = controller().read(6, buf.len());
    read_step(&mut op, Reply::Notification(None), &mut buf);
    assert!(matches!(
        read_step(&mut op, Reply::SocketChecked(true), &mut buf),
        Step::Finish(Err(TcpError::SocketClosed))
    ));
    assert_eq!(buf, [7, 7]);
}

#[test]
fn an_unexpected_response_is_a_read_error() {
    let mut buf = [7u8; 2];
    let (mut op, _) = controller().read(6, buf.len());
    asked(&mut op, &mut buf, 2);
    assert!(matches!(
        read_step(&mut op, Reply::Response(Response::Error), &mut buf),
        Step::Finish(Err(TcpError::ReadError))
    ));
}

#[test]
fn data_is_not_lost_to_an_error() {
    let mut buf = [0u8; 4];
    let (mut op, _) = controller().read(6, buf.len());
    asked(&mut op, &mut buf, 4);
    read_step(&mut op, Reply::Response(data(b"a")), &mut buf);
    asked(&mut op, &mut buf, 3);
    assert!(matches!(
        read_step(&mut op, Reply::Response(Response::Error), &mut buf),
        Step::Finish(Ok(1))
    ));
    let (mut op, _) = controller().read(6, buf.len());
    asked(&mut op, &mut buf, 4);
    read_step(&mut op, Reply::Response(data(b"bc")), &mut buf);
    read_step(&mut op, Reply::Notification(None), &mut buf);
    assert!(matches!(
        read_step(&mut op, Reply::SocketChecked(true), &mut buf),
        Step::Finish(Ok(2))
    ));
    assert_eq!(&buf[..2], b"bc");
}

#[test]
fn a_socket_is_closed_where_its_link_is() {
    let c = controller();
    assert_eq!(c.close(3), Command::CloseConnection(3));
    assert_eq!(c.close_result(3, Response::Okay), Some(3));
    assert_eq!(c.close_result(3, Response::UnlinkFail), Some(3));
    assert_eq!(c.close_result(3, Response::Error), None);
    assert_eq!(c.close_result(3, Response::Closed(3)), None);
}
