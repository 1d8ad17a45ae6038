//! The operations of the controller that take several exchanges with the modem.
//!
//! An operation decides and its caller acts: `resume` takes what came of the last task and tells
//! which task is next, or what the result is.
use vstd::prelude::*;

use crate::net::{IpAddress, JoinError, TcpError};
use crate::protocol::{Command, Response, BUFFER_LEN};
use crate::text::Line;

verus! {

/// What an operation asks its caller to do.
pub enum Task<'c> {
    /// Take the next notification, if there is one.
    PollNotification,
    /// Mark a socket as closed.
    CloseSocket(u8),
    /// Find out whether a socket is closed.
    CheckSocket(u8),
    /// Send a command to the modem, and receive a response.
    Request(Command<'c>),
    /// Receive a response.
    Receive,
    /// Send a line to the modem as it is, and receive a response.
    Transmit(Line),
}

/// What came of a task.
pub enum Reply {
    /// The notification that was waiting, if there was one.
    Notification(Option<Response>),
    /// A socket was marked as closed.
    SocketClosed,
    /// Whether a socket is closed.
    SocketChecked(bool),
    /// A response was received.
    Response(Response),
}

/// What follows a reply.
pub enum Step<'c, T> {
    /// There is more to do.
    Perform(Task<'c>),
    /// The operation has come to its result.
    Finish(T),
}

/// The socket that stands for a link.
pub open spec fn socket_of(link_id: usize) -> u8 {
    (link_id % 256) as u8
}

/// The operation that brings the sockets up to date with the notifications.
#[derive(Clone, Copy, Debug, PartialEq, Eq, Structural)]
pub enum Drain {
    /// The next notification is being taken.
    Polling,
    /// A socket is being marked as closed.
    Closing,
    /// No notification is left.
    Drained,
}

impl Drain {
    /// Whether the reply is an outcome of the task that is under way.
    pub open spec fn awaits(self, reply: Reply) -> bool {
        match self {
            Drain::Polling => reply is Notification,
            Drain::Closing => reply is SocketClosed,
            Drain::Drained => false,
        }
    }

    /// What follows a notification: the socket of a link that was closed is marked as closed, and
    /// other notifications are passed over.
    pub open spec fn after_notification(notification: Option<Response>) -> (
        Drain,
        Step<'static, ()>,
    ) {
        match notification {
            Some(Response::Closed(link_id)) => (
                Drain::Closing,
                Step::Perform(Task::CloseSocket(socket_of(link_id))),
            ),
            Some(_) => (Drain::Polling, Step::Perform(Task::PollNotification)),
            None => (Drain::Drained, Step::Finish(())),
        }
    }

    /// What follows a reply.
    pub open spec fn next(self, reply: Reply) -> (Drain, Step<'static, ()>) {
        match reply {
            Reply::Notification(notification) => Drain::after_notification(notification),
            _ => (Drain::Polling, Step::Perform(Task::PollNotification)),
        }
    }

    /// Whether the reply is an outcome of the task that is under way.
    pub fn is_awaiting(&self, reply: &Reply) -> (res: bool)
        ensures
            res == self.awaits(*reply),
    {
        match (*self, reply) {
            (Drain::Polling, Reply::Notification(_)) => true,
            (Drain::Closing, Reply::SocketClosed) => true,
            _ => false,
        }
    }

    /// Takes the outcome of the last task, and tells what follows.
    pub fn resume(&mut self, reply: Reply) -> (step: Step<'static, ()>)
        requires
            old(self).awaits(reply),
        ensures
            (*final(self), step) == old(self).next(reply),
    {
        match reply {
            Reply::Notification(Some(response)) => match response {
                Response::Closed(link_id) => {
                    *self = Drain::Closing;
                    let handle: u8 = #[verifier::truncate] (link_id as u8);
                    assert(link_id as u8 == link_id % 256) by (bit_vector);
                    Step::Perform(Task::CloseSocket(handle))
                },
                _ => {
                    *self = Drain::Polling;
                    Step::Perform(Task::PollNotification)
                },
            },
            Reply::Notification(None) => {
                *self = Drain::Drained;
                Step::Finish(())
            },
            _ => {
                *self = Drain::Polling;
                Step::Perform(Task::PollNotification)
            },
        }
    }
}

/// How far the sending of data has come.
#[derive(Clone, Copy, Debug, PartialEq, Eq)]
pub enum WritePhase {
    /// The sockets are being brought up to date.
    Draining(Drain),
    /// The socket is being checked.
    Checking,
    /// The data was announced.
    Announcing,
    /// The announcement was accepted, and the prompt for the data is awaited.
    Prompting,
    /// The data was sent, and the adapter has said how much it has received.
    Reporting(Option<usize>),
    /// There is a result.
    Finished,
}

/// The operation that sends data over a socket.
pub struct Write {
    pub handle: u8,
    pub len: usize,
    pub line: Option<Line>,
    pub phase: WritePhase,
}

impl Write {
    /// Whether the reply is an outcome of the task that is under way. Data that cannot be sent as
    /// one line must not be prompted for.
    pub open spec fn awaits(self, reply: Reply) -> bool {
        match self.phase {
            WritePhase::Draining(drain) => drain.awaits(reply),
            WritePhase::Checking => reply is SocketChecked,
            WritePhase::Announcing => reply is Response,
            WritePhase::Prompting => {
                &&& reply is Response
                &&& reply->Response_0 is ReadyForData ==> self.line is Some
            },
            WritePhase::Reporting(_) => reply is Response,
            WritePhase::Finished => false,
        }
    }

    /// The operation in another phase.
    pub open spec fn at(self, phase: WritePhase) -> Write {
        Write { phase, ..self }
    }

    /// The end of the operation.
    pub open spec fn end(self, result: Result<usize, TcpError>) -> (
        Write,
        Step<'static, Result<usize, TcpError>>,
    ) {
        (self.at(WritePhase::Finished), Step::Finish(result))
    }

    /// What follows a reply.
    pub open spec fn next(self, reply: Reply) -> (Write, Step<'static, Result<usize, TcpError>>) {
        match (self.phase, reply) {
            (WritePhase::Draining(drain), _) => match drain.next(reply) {
                (drain, Step::Perform(task)) => (
                    self.at(WritePhase::Draining(drain)),
                    Step::Perform(task),
                ),
                (_, Step::Finish(())) => (
                    self.at(WritePhase::Checking),
                    Step::Perform(Task::CheckSocket(self.handle)),
                ),
            },
            (WritePhase::Checking, Reply::SocketChecked(closed)) => if closed {
                self.end(Err(TcpError::SocketClosed))
            } else {
                (
                    self.at(WritePhase::Announcing),
                    Step::Perform(
                        Task::Request(
                            Command::Send { link_id: self.handle as usize, len: self.len },
                        ),
                    ),
                )
            },
            (WritePhase::Announcing, Reply::Response(Response::Okay)) => (
                self.at(WritePhase::Prompting),
                Step::Perform(Task::Receive),
            ),
            (WritePhase::Prompting, Reply::Response(Response::ReadyForData)) => (
                Write { line: None, ..self.at(WritePhase::Reporting(None)) },
                Step::Perform(Task::Transmit(self.line->0)),
            ),
            (
                WritePhase::Reporting(_),
                Reply::Response(Response::ReceivedDataToSend(len)),
            ) => (self.at(WritePhase::Reporting(Some(len))), Step::Perform(Task::Receive)),
            (WritePhase::Reporting(sent), Reply::Response(Response::SendOk)) => self.end(
                Ok(
                    match sent {
                        Some(len) => len,
                        None => 0,
                    },
                ),
            ),
            _ => self.end(Err(TcpError::WriteError)),
        }
    }

    /// Whether the reply is an outcome of the task that is under way. Data that cannot be sent as
    /// one line must not be prompted for.
    pub fn is_awaiting(&self, reply: &Reply) -> (res: bool)
        ensures
            res == self.awaits(*reply),
    {
        match (self.phase, reply) {
            (WritePhase::Draining(drain), _) => drain.is_awaiting(reply),
            (WritePhase::Checking, Reply::SocketChecked(_)) => true,
            (WritePhase::Announcing, Reply::Response(_)) => true,
            (WritePhase::Prompting, Reply::Response(Response::ReadyForData)) => self.line.is_some(),
            (WritePhase::Prompting, Reply::Response(_)) => true,
            (WritePhase::Reporting(_), Reply::Response(_)) => true,
            _ => false,
        }
    }

    /// Takes the outcome of the last task, and tells what follows.
    pub fn resume(&mut self, reply: Reply) -> (step: Step<'static, Result<usize, TcpError>>)
        requires
            old(self).awaits(reply),
        ensures
            (*final(self), step) == old(self).next(reply),
    {
        match (self.phase, reply) {
            (WritePhase::Draining(drain), reply) => {
                let mut drain = drain;
                match drain.resume(reply) {
                    Step::Perform(task) => {
                        self.phase = WritePhase::Draining(drain);
                        Step::Perform(task)
                    },
                    Step::Finish(()) => {
                        self.phase = WritePhase::Checking;
                        Step::Perform(Task::CheckSocket(self.handle))
                    },
                }
            },
            (WritePhase::Checking, Reply::SocketChecked(closed)) => {
                if closed {
                    self.phase = WritePhase::Finished;
                    Step::Finish(Err(TcpError::SocketClosed))
                } else {
                    self.phase = WritePhase::Announcing;
                    let link_id: usize = self.handle as usize;
                    Step::Perform(Task::Request(Command::Send { link_id, len: self.len }))
                }
            },
            (WritePhase::Announcing, Reply::Response(Response::Okay)) => {
                self.phase = WritePhase::Prompting;
                Step::Perform(Task::Receive)
            },
            (WritePhase::Prompting, Reply::Response(Response::ReadyForData)) => {
                self.phase = WritePhase::Reporting(None);
                let line = self.line.take().unwrap();
                Step::Perform(Task::Transmit(line))
            },
            (WritePhase::Reporting(_), Reply::Response(Response::ReceivedDataToSend(len))) => {
                self.phase = WritePhase::Reporting(Some(len));
                Step::Perform(Task::Receive)
            },
            (WritePhase::Reporting(sent), Reply::Response(Response::SendOk)) => {
                self.phase = WritePhase::Finished;
                let len: usize = match sent {
                    Some(len) => len,
                    None => 0,
                };
                Step::Finish(Ok(len))
            },
            _ => {
                self.phase = WritePhase::Finished;
                Step::Finish(Err(TcpError::WriteError))
            },
        }
    }
}

/// How far the receiving of data has come.
#[derive(Clone, Copy, Debug, PartialEq, Eq)]
pub enum ReadPhase {
    /// The sockets are being brought up to date.
    Draining(Drain),
    /// The socket is being checked.
    Checking,
    /// Data was asked for.
    Fetching,
    /// There is a result.
    Finished,
}

/// The operation that receives data over a socket.
#[derive(Clone, Copy, Debug, PartialEq, Eq)]
pub struct Read {
    pub handle: u8,
    /// The size of the buffer for the data.
    pub room: usize,
    /// How much of the buffer is filled.
    pub received: usize,
    pub phase: ReadPhase,
}

/// The smaller of two numbers.
pub open spec fn smaller(a: usize, b: usize) -> usize {
    if a <= b {
        a
    } else {
        b
    }
}

impl Read {
    /// The buffer is not filled beyond its end.
    pub open spec fn wf(self) -> bool {
        self.received <= self.room
    }

    /// Whether the reply is an outcome of the task that is under way. The adapter must not hand
    /// over more data than a response can carry or the buffer can take.
    pub open spec fn awaits(self, reply: Reply) -> bool {
        match self.phase {
            ReadPhase::Draining(drain) => drain.awaits(reply),
            ReadPhase::Checking => reply is SocketChecked,
            ReadPhase::Fetching => {
                &&& reply is Response
                &&& reply->Response_0 matches Response::DataReceived(_, len) ==> {
                    &&& len <= BUFFER_LEN
                    &&& self.received + len <= self.room
                }
            },
            ReadPhase::Finished => false,
        }
    }

    /// How much data is asked for next.
    pub open spec fn wanted(self) -> usize {
        smaller((self.room - self.received) as usize, BUFFER_LEN)
    }

    /// The operation in another phase.
    pub open spec fn at(self, phase: ReadPhase) -> Read {
        Read { phase, ..self }
    }

    /// The operation ends well.
    pub open spec fn end(self) -> (Read, Step<'static, Result<usize, TcpError>>) {
        (self.at(ReadPhase::Finished), Step::Finish(Ok(self.received)))
    }

    /// The operation cannot go on: that is an error only if there is no data to return.
    pub open spec fn give_up(self, error: TcpError) -> (
        Read,
        Step<'static, Result<usize, TcpError>>,
    ) {
        if self.received == 0 {
            (self.at(ReadPhase::Finished), Step::Finish(Err(error)))
        } else {
            self.end()
        }
    }

    /// The operation has received so much more data.
    pub open spec fn with(self, len: usize) -> Read {
        Read { received: (self.received + len) as usize, ..self }
    }

    /// What follows a reply.
    pub open spec fn next(self, reply: Reply) -> (Read, Step<'static, Result<usize, TcpError>>) {
        match (self.phase, reply) {
            (ReadPhase::Draining(drain), _) => match drain.next(reply) {
                (drain, Step::Perform(task)) => (
                    self.at(ReadPhase::Draining(drain)),
                    Step::Perform(task),
                ),
                (_, Step::Finish(())) => (
                    self.at(ReadPhase::Checking),
                    Step::Perform(Task::CheckSocket(self.handle)),
                ),
            },
            (ReadPhase::Checking, Reply::SocketChecked(closed)) => if closed {
                self.give_up(TcpError::SocketClosed)
            } else {
                (
                    self.at(ReadPhase::Fetching),
                    Step::Perform(
                        Task::Request(
                            Command::Receive { link_id: self.handle as usize, len: self.wanted() },
                        ),
                    ),
                )
            },
            (ReadPhase::Fetching, Reply::Response(Response::DataReceived(_, len))) => if len == 0
                || self.with(len).received == self.room {
                self.with(len).end()
            } else {
                (
                    self.with(len).at(ReadPhase::Draining(Drain::Polling)),
                    Step::Perform(Task::PollNotification),
                )
            },
            (ReadPhase::Fetching, Reply::Response(Response::Okay)) => self.end(),
            _ => self.give_up(TcpError::ReadError),
        }
    }

    /// What the buffer holds after a reply: the data stands behind what was there.
    pub open spec fn filled(self, buf: Seq<u8>, reply: Reply) -> Seq<u8> {
        match (self.phase, reply) {
            (ReadPhase::Fetching, Reply::Response(Response::DataReceived(data, len))) => buf.take(
                self.received as int,
            ) + data@.take(len as int) + buf.skip(self.received + len),
            _ => buf,
        }
    }

    /// Whether the reply is an outcome of the task that is under way. The adapter must not hand
    /// over more data than a response can carry or the buffer can take.
    pub fn is_awaiting(&self, reply: &Reply) -> (res: bool)
        requires
            self.wf(),
        ensures
            res == self.awaits(*reply),
    {
        match (self.phase, reply) {
            (ReadPhase::Draining(drain), _) => drain.is_awaiting(reply),
            (ReadPhase::Checking, Reply::SocketChecked(_)) => true,
            (ReadPhase::Fetching, Reply::Response(Response::DataReceived(_, len))) => {
                *len <= BUFFER_LEN && *len <= self.room - self.received
            },
            (ReadPhase::Fetching, Reply::Response(_)) => true,
            _ => false,
        }
    }

    fn finish(&mut self, error: TcpError) -> (step: Step<'static, Result<usize, TcpError>>)
        ensures
            (*final(self), step) == old(self).give_up(error),
    {
        self.phase = ReadPhase::Finished;
        if self.received == 0 {
            Step::Finish(Err(error))
        } else {
            Step::Finish(Ok(self.received))
        }
    }

    /// Takes the outcome of the last task, puts the data that came with it into the buffer, and
    /// tells what follows.
    pub fn resume(&mut self, reply: Reply, buf: &mut [u8]) -> (step: Step<
        'static,
        Result<usize, TcpError>,
    >)
        requires
            old(self).wf(),
            old(self).awaits(reply),
            old(buf)@.len() == old(self).room,
        ensures
            (*final(self), step) == old(self).next(reply),
            final(self).wf(),
            final(buf)@ == old(self).filled(old(buf)@, reply),
    {
        match (self.phase, reply) {
            (ReadPhase::Draining(drain), reply) => {
                let mut drain = drain;
                match drain.resume(reply) {
                    Step::Perform(task) => {
                        self.phase = ReadPhase::Draining(drain);
                        Step::Perform(task)
                    },
                    Step::Finish(()) => {
                        self.phase = ReadPhase::Checking;
                        Step::Perform(Task::CheckSocket(self.handle))
                    },
                }
            },
            (ReadPhase::Checking, Reply::SocketChecked(closed)) => {
                if closed {
                    self.finish(TcpError::SocketClosed)
                } else {
                    self.phase = ReadPhase::Fetching;
                    let left: usize = self.room - self.received;
                    let len: usize = if left <= BUFFER_LEN {
                        left
                    } else {
                        BUFFER_LEN
                    };
                    let link_id: usize = self.handle as usize;
                    Step::Perform(Task::Request(Command::Receive { link_id, len }))
                }
            },
            (ReadPhase::Fetching, Reply::Response(Response::DataReceived(data, len))) => {
                let start: usize = self.received;
                let mut i: usize = 0;
                while i < len
                    invariant
                        len <= BUFFER_LEN,
                        start + len <= buf@.len(),
                        start + len <= usize::MAX,
                        buf@.len() == old(buf)@.len(),
                        i <= len,
                        buf@ == old(buf)@.take(start as int) + data@.take(i as int) + old(
                            buf,
                        )@.skip(start + i),
                    decreases len - i,
                {
                    buf[start + i] = data[i];
                    i = i + 1;
                    assert(buf@ =~= old(buf)@.take(start as int) + data@.take(i as int) + old(
                        buf,
                    )@.skip(start + i));
                }
                self.received = start + len;
                if len == 0 || self.received == self.room {
                    self.phase = ReadPhase::Finished;
                    Step::Finish(Ok(self.received))
                } else {
                    self.phase = ReadPhase::Draining(Drain::Polling);
                    Step::Perform(Task::PollNotification)
                }
            },
            (ReadPhase::Fetching, Reply::Response(Response::Okay)) => {
                self.phase = ReadPhase::Finished;
                Step::Finish(Ok(self.received))
            },
            _ => self.finish(TcpError::ReadError),
        }
    }
}

/// How far the joining of an access point has come.
#[derive(Clone, Copy, Debug, PartialEq, Eq, Structural)]
pub enum JoinPhase {
    /// The adapter was told to join.
    Associating,
    /// The adapter has joined, and was asked for its addresses.
    Asking,
    /// There is a result.
    Finished,
}

/// The operation that joins an access point.
#[derive(Clone, Copy, Debug, PartialEq, Eq, Structural)]
pub struct Joining {
    pub phase: JoinPhase,
}

/// The address in the adapter's answer to the question for its addresses, if that is what it is.
pub open spec fn reported_address(response: Response) -> Result<IpAddress, ()> {
    match response {
        Response::IpAddresses(addresses) => Ok(IpAddress::V4(addresses.ip)),
        _ => Err(()),
    }
}

/// Takes the address from the adapter's answer to the question for its addresses.
pub fn address_in(response: Response) -> (res: Result<IpAddress, ()>)
    ensures
        res == reported_address(response),
        response matches Response::IpAddresses(addresses) ==> res == Ok::<IpAddress, ()>(
            IpAddress::V4(addresses.ip),
        ),
        response !is IpAddresses ==> res is Err,
{
    match response {
        Response::IpAddresses(addresses) => Ok(IpAddress::V4(addresses.ip)),
        _ => Err(()),
    }
}

impl Joining {
    /// Whether the reply is an outcome of the task that is under way.
    pub open spec fn awaits(self, reply: Reply) -> bool {
        self.phase !is Finished && reply is Response
    }

    /// What the adapter's response to the command to join means.
    pub open spec fn after_association(response: Response) -> (
        Joining,
        Step<'static, Result<IpAddress, JoinError>>,
    ) {
        match response {
            Response::Okay => (
                Joining { phase: JoinPhase::Asking },
                Step::Perform(Task::Request(Command::QueryIpAddress)),
            ),
            Response::WifiConnectionFailure(_) => (
                Joining { phase: JoinPhase::Finished },
                Step::Finish(Err(JoinError::Unknown)),
            ),
            _ => (
                Joining { phase: JoinPhase::Finished },
                Step::Finish(Err(JoinError::UnableToAssociate)),
            ),
        }
    }

    /// What the adapter's response to the question for its addresses means.
    pub open spec fn after_question(response: Response) -> (
        Joining,
        Step<'static, Result<IpAddress, JoinError>>,
    ) {
        (
            Joining { phase: JoinPhase::Finished },
            Step::Finish(
                match reported_address(response) {
                    Ok(address) => Ok(address),
                    Err(()) => Err(JoinError::Unknown),
                },
            ),
        )
    }

    /// What follows a reply.
    pub open spec fn next(self, reply: Reply) -> (
        Joining,
        Step<'static, Result<IpAddress, JoinError>>,
    ) {
        if self.phase is Associating {
            Joining::after_association(reply->Response_0)
        } else {
            Joining::after_question(reply->Response_0)
        }
    }

    /// Whether the reply is an outcome of the task that is under way.
    pub fn is_awaiting(&self, reply: &Reply) -> (res: bool)
        ensures
            res == self.awaits(*reply),
    {
        match (self.phase, reply) {
            (JoinPhase::Finished, _) => false,
            (_, Reply::Response(_)) => true,
            _ => false,
        }
    }

    /// Takes the outcome of the last task, and tells what follows.
    pub fn resume(&mut self, reply: Reply) -> (step: Step<'static, Result<IpAddress, JoinError>>)
        requires
            old(self).awaits(reply),
        ensures
            (*final(self), step) == old(self).next(reply),
    {
        match (self.phase, reply) {
            (JoinPhase::Associating, Reply::Response(Response::Okay)) => {
                self.phase = JoinPhase::Asking;
                Step::Perform(Task::Request(Command::QueryIpAddress))
            },
            (JoinPhase::Associating, Reply::Response(Response::WifiConnectionFailure(_))) => {
                self.phase = JoinPhase::Finished;
                Step::Finish(Err(JoinError::Unknown))
            },
            (JoinPhase::Asking, Reply::Response(response)) => {
                self.phase = JoinPhase::Finished;
                match address_in(response) {
                    Ok(address) => Step::Finish(Ok(address)),
                    Err(()) => Step::Finish(Err(JoinError::Unknown)),
                }
            },
            _ => {
                self.phase = JoinPhase::Finished;
                Step::Finish(Err(JoinError::UnableToAssociate))
            },
        }
    }
}

} // verus!
