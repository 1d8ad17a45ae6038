//! The side of the driver that its user talks to.
use vstd::prelude::*;

use crate::net::{IpAddress, IpProtocol, Join, JoinError, SocketAddress, TcpError};
use crate::operations::{
    address_in, reported_address, Drain, JoinPhase, Joining, Read, ReadPhase, Step, Task, Write,
    WritePhase,
};
use crate::protocol::{Command, ConnectionType, Response, WiFiMode};
use crate::text::{terminated, transmittable, Line};

verus! {

/// The controller: the pool of sockets, and the ends of the channels to the modem.
pub struct Esp8266Controller<POOL, COMMANDS, RESPONSES, NOTIFICATIONS> {
    pub socket_pool: POOL,
    pub command_producer: COMMANDS,
    pub response_consumer: RESPONSES,
    pub notification_consumer: NOTIFICATIONS,
}

impl<POOL, COMMANDS, RESPONSES, NOTIFICATIONS> Esp8266Controller<
    POOL,
    COMMANDS,
    RESPONSES,
    NOTIFICATIONS,
> {
    /// A controller with the given pool and channels. The pool is to hold closed sockets only.
    pub fn new(
        socket_pool: POOL,
        command_producer: COMMANDS,
        response_consumer: RESPONSES,
        notification_consumer: NOTIFICATIONS,
    ) -> (controller: Self)
        ensures
            controller.socket_pool == socket_pool,
            controller.command_producer == command_producer,
            controller.response_consumer == response_consumer,
            controller.notification_consumer == notification_consumer,
    {
        Esp8266Controller {
            socket_pool,
            command_producer,
            response_consumer,
            notification_consumer,
        }
    }

    /// The line that is sent to the modem for a command, from the text of the command.
    pub fn send(&self, text: Line) -> (line: Line)
        ensures
            line@ == terminated(text@),
            text@.len() + 2 <= 128 ==> line@ == text@ + seq![13u8, 10u8],
            text@.len() + 2 > 128 ==> line@ == text@,
    {
        text.terminate()
    }

    /// The command that gives the adapter a role.
    pub fn set_wifi_mode(&self, mode: WiFiMode) -> (command: Command<'static>)
        ensures
            command == Command::SetMode(mode),
    {
        Command::SetMode(mode)
    }

    /// Whether the adapter has accepted its role.
    pub fn set_wifi_mode_result(&self, response: Response) -> (res: Result<(), ()>)
        ensures
            res is Ok <==> response is Okay,
    {
        match response {
            Response::Okay => Ok(()),
            _ => Err(()),
        }
    }

    /// The command that asks the adapter for its addresses.
    pub fn get_ip_address(&self) -> (command: Command<'static>)
        ensures
            command == Command::QueryIpAddress,
    {
        Command::QueryIpAddress
    }

    /// The address of the adapter, if its response gives it.
    pub fn get_ip_address_result(&self, response: Response) -> (res: Result<IpAddress, ()>)
        ensures
            res == reported_address(response),
            response matches Response::IpAddresses(addresses) ==> res == Ok::<IpAddress, ()>(
                IpAddress::V4(addresses.ip),
            ),
            response !is IpAddresses ==> res is Err,
    {
        address_in(response)
    }

    /// Starts to join the access point of the given name with the given password.
    pub fn join_wep<'c>(&self, ssid: &'c str, password: &'c str) -> (res: (
        Joining,
        Step<'c, Result<IpAddress, JoinError>>,
    ))
        ensures
            res.0 == (Joining { phase: JoinPhase::Associating }),
            res.1 == Step::<Result<IpAddress, JoinError>>::Perform(
                Task::Request(Command::JoinAp { ssid, password }),
            ),
    {
        (
            Joining { phase: JoinPhase::Associating },
            Step::Perform(Task::Request(Command::JoinAp { ssid, password })),
        )
    }

    /// Starts to join an access point. One without a password is not joined.
    pub fn join<'c>(&self, join_info: &'c Join) -> (res: (
        Joining,
        Step<'c, Result<IpAddress, JoinError>>,
    ))
        ensures
            match *join_info {
                Join::Open => {
                    &&& res.0 == (Joining { phase: JoinPhase::Finished })
                    &&& res.1 == Step::<Result<IpAddress, JoinError>>::Finish(
                        Err(JoinError::Unknown),
                    )
                },
                Join::Wpa { ssid, password } => {
                    &&& res.0 == (Joining { phase: JoinPhase::Associating })
                    &&& res.1 matches Step::Perform(
                        Task::Request(Command::JoinAp { ssid: s, password: p }),
                    )
                    &&& s@ == ssid@
                    &&& p@ == password@
                },
            },
    {
        match join_info {
            Join::Open => (
                Joining { phase: JoinPhase::Finished },
                Step::Finish(Err(JoinError::Unknown)),
            ),
            Join::Wpa { ssid, password } => self.join_wep(ssid.as_str(), password.as_str()),
        }
    }

    /// Starts to bring the sockets up to date with the notifications.
    pub fn process_notifications(&self) -> (res: (Drain, Step<'static, ()>))
        ensures
            res.0 == Drain::Polling,
            res.1 == Step::<()>::Perform(Task::PollNotification),
    {
        (Drain::Polling, Step::Perform(Task::PollNotification))
    }

    /// The command that connects a socket to a remote address. Whatever the protocol asked for, the
    /// connection is one of TCP.
    pub fn connect(&self, handle: u8, proto: IpProtocol, dst: SocketAddress) -> (command: Command<
        'static,
    >)
        ensures
            command == Command::StartConnection(handle as usize, ConnectionType::TCP, dst),
    {
        Command::StartConnection(handle as usize, ConnectionType::TCP, dst)
    }

    /// Whether the socket was connected.
    pub fn connect_result(&self, response: Response) -> (res: Result<(), TcpError>)
        ensures
            res == if response is Connect {
                Ok::<(), TcpError>(())
            } else {
                Err(TcpError::ConnectError)
            },
    {
        match response {
            Response::Connect(..) => Ok(()),
            _ => Err(TcpError::ConnectError),
        }
    }

    /// Starts to send data over a socket.
    pub fn write(&self, handle: u8, buf: &[u8]) -> (res: (
        Write,
        Step<'static, Result<usize, TcpError>>,
    ))
        ensures
            res.0.handle == handle,
            res.0.len == buf@.len(),
            res.0.line is Some <==> transmittable(buf@),
            res.0.line is Some <==> buf@.len() <= 128 && vstd::utf8::valid_utf8(buf@),
            res.0.line matches Some(line) ==> line@ == buf@,
            res.0.phase == WritePhase::Draining(Drain::Polling),
            res.1 == Step::<Result<usize, TcpError>>::Perform(Task::PollNotification),
    {
        (
            Write {
                handle,
                len: buf.len(),
                line: Line::from_payload(buf),
                phase: WritePhase::Draining(Drain::Polling),
            },
            Step::Perform(Task::PollNotification),
        )
    }

    /// Starts to receive data over a socket into a buffer of the given size.
    pub fn read(&self, handle: u8, room: usize) -> (res: (
        Read,
        Step<'static, Result<usize, TcpError>>,
    ))
        ensures
            res.0 == (Read {
                handle,
                room,
                received: 0,
                phase: ReadPhase::Draining(Drain::Polling),
            }),
            res.0.wf(),
            res.1 == Step::<Result<usize, TcpError>>::Perform(Task::PollNotification),
    {
        (
            Read { handle, room, received: 0, phase: ReadPhase::Draining(Drain::Polling) },
            Step::Perform(Task::PollNotification),
        )
    }

    /// The command that closes a socket.
    pub fn close(&self, handle: u8) -> (command: Command<'static>)
        ensures
            command == Command::CloseConnection(handle as usize),
    {
        Command::CloseConnection(handle as usize)
    }

    /// The socket to be marked as closed after the adapter's response to the command to close it:
    /// the socket itself where the link is closed, whether the command did that or it was closed
    /// before.
    pub fn close_result(&self, handle: u8, response: Response) -> (res: Option<u8>)
        ensures
            res == if response is Okay || response is UnlinkFail {
                Some(handle)
            } else {
                None
            },
    {
        match response {
            Response::Okay | Response::UnlinkFail => Some(handle),
            _ => None,
        }
    }
}

} // verus!
