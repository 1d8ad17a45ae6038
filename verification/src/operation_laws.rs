//! What holds of every run of the controller's operations.
use vstd::prelude::*;

use crate::net::{IpAddress, JoinError, TcpError};
use crate::operations::{
    reported_address, socket_of, Drain, JoinPhase, Joining, Read, ReadPhase, Reply, Step, Task,
    Write, WritePhase,
};
use crate::protocol::{Command, Response};
use crate::text::Line;

verus! {

/// How far the sockets are brought up to date after the given replies.
pub open spec fn drain_after(drain: Drain, replies: Seq<Reply>) -> Drain
    decreases replies.len(),
{
    if replies.len() == 0 {
        drain
    } else {
        drain_after(drain, replies.drop_last()).next(replies.last()).0
    }
}

/// Whether each of the replies is an outcome of the task that is under way when it comes.
pub open spec fn drain_admits(drain: Drain, replies: Seq<Reply>) -> bool
    decreases replies.len(),
{
    replies.len() > 0 ==> {
        &&& drain_admits(drain, replies.drop_last())
        &&& drain_after(drain, replies.drop_last()).awaits(replies.last())
    }
}

/// The sockets that are marked as closed.
pub open spec fn closed_by_drain(drain: Drain, replies: Seq<Reply>) -> Seq<u8>
    decreases replies.len(),
{
    if replies.len() == 0 {
        Seq::empty()
    } else {
        let before = closed_by_drain(drain, replies.drop_last());
        match drain_after(drain, replies.drop_last()).next(replies.last()).1 {
            Step::Perform(Task::CloseSocket(handle)) => before.push(handle),
            _ => before,
        }
    }
}

/// The sockets of the links that the notifications among the replies report as closed.
pub open spec fn reported_closed(replies: Seq<Reply>) -> Seq<u8>
    decreases replies.len(),
{
    if replies.len() == 0 {
        Seq::empty()
    } else {
        let before = reported_closed(replies.drop_last());
        match replies.last() {
            Reply::Notification(Some(Response::Closed(link_id))) => before.push(
                (link_id % 256) as u8,
            ),
            _ => before,
        }
    }
}

/// The sockets that are marked as closed are those of the links that were reported as closed, in
/// that order, and the notifications are taken until none is left.
pub proof fn law_reported_sockets_are_closed(replies: Seq<Reply>)
    requires
        drain_admits(Drain::Polling, replies),
    ensures
        closed_by_drain(Drain::Polling, replies) == reported_closed(replies),
        drain_after(Drain::Polling, replies) is Drained <==> replies.len() > 0
            && replies.last() matches Reply::Notification(None),
    decreases replies.len(),
{
    if replies.len() > 0 {
        law_reported_sockets_are_closed(replies.drop_last());
    }
}

/// The socket that stands for a link has the number of the link, cut to one byte.
pub proof fn law_sockets_of_links(link_id: usize)
    ensures
        socket_of(link_id) == link_id % 256,
        link_id < 256 ==> socket_of(link_id) == link_id,
{
}

/// What follows the last of the replies.
pub open spec fn drain_step(replies: Seq<Reply>) -> Step<'static, ()> {
    drain_after(Drain::Polling, replies.drop_last()).next(replies.last()).1
}

/// Each notification is followed by the closing of the socket that it reports as closed, if it
/// reports one, and then by the next notification. Where none is left the work is done.
pub proof fn law_what_a_drain_asks_for(replies: Seq<Reply>)
    requires
        drain_admits(Drain::Polling, replies),
        replies.len() > 0,
    ensures
        drain_step(replies) == match replies.last() {
            Reply::Notification(Some(Response::Closed(link_id))) => Step::<()>::Perform(
                Task::CloseSocket((link_id % 256) as u8),
            ),
            Reply::Notification(Some(_)) => Step::Perform(Task::PollNotification),
            Reply::Notification(None) => Step::Finish(()),
            _ => Step::Perform(Task::PollNotification),
        },
{
}

/// A task is asked for, and its outcome can be told; after the end nothing can.
pub proof fn law_a_drain_awaits_what_it_asked_for(replies: Seq<Reply>, reply: Reply)
    requires
        drain_admits(Drain::Polling, replies),
    ensures
        drain_admits(Drain::Polling, replies.push(reply)) <==> if replies.len() == 0 {
            reply is Notification
        } else {
            match drain_step(replies) {
                Step::Perform(Task::CloseSocket(_)) => reply is SocketClosed,
                Step::Perform(_) => reply is Notification,
                Step::Finish(()) => false,
            }
        },
{
    assert(replies.push(reply).drop_last() =~= replies);
}

/// The operation that sends data, after the given replies.
pub open spec fn write_after(write: Write, replies: Seq<Reply>) -> Write
    decreases replies.len(),
{
    if replies.len() == 0 {
        write
    } else {
        write_after(write, replies.drop_last()).next(replies.last()).0
    }
}

/// Whether each of the replies is an outcome of the task that is under way when it comes.
pub open spec fn write_admits(write: Write, replies: Seq<Reply>) -> bool
    decreases replies.len(),
{
    replies.len() > 0 ==> {
        &&& write_admits(write, replies.drop_last())
        &&& write_after(write, replies.drop_last()).awaits(replies.last())
    }
}

/// What follows the last of the replies.
pub open spec fn write_step(write: Write, replies: Seq<Reply>) -> Step<
    'static,
    Result<usize, TcpError>,
> {
    write_after(write, replies.drop_last()).next(replies.last()).1
}

/// The commands that the operation asks to be sent.
pub open spec fn write_requests(write: Write, replies: Seq<Reply>) -> Seq<Command<'static>>
    decreases replies.len(),
{
    if replies.len() == 0 {
        Seq::empty()
    } else {
        let before = write_requests(write, replies.drop_last());
        match write_step(write, replies) {
            Step::Perform(Task::Request(command)) => before.push(command),
            _ => before,
        }
    }
}

/// The lines that the operation asks to be sent as they are.
pub open spec fn write_lines(write: Write, replies: Seq<Reply>) -> Seq<Line>
    decreases replies.len(),
{
    if replies.len() == 0 {
        Seq::empty()
    } else {
        let before = write_lines(write, replies.drop_last());
        match write_step(write, replies) {
            Step::Perform(Task::Transmit(line)) => before.push(line),
            _ => before,
        }
    }
}

/// The sockets that the operation asks to be marked as closed.
pub open spec fn closed_by_write(write: Write, replies: Seq<Reply>) -> Seq<u8>
    decreases replies.len(),
{
    if replies.len() == 0 {
        Seq::empty()
    } else {
        let before = closed_by_write(write, replies.drop_last());
        match write_step(write, replies) {
            Step::Perform(Task::CloseSocket(handle)) => before.push(handle),
            _ => before,
        }
    }
}

/// The announcement of the data of an operation.
pub open spec fn announcement(write: Write) -> Command<'static> {
    Command::Send { link_id: write.handle as usize, len: write.len }
}

/// Before anything is sent, the sockets are brought up to date and the socket is checked. The data
/// is announced at most once and sent at most once, both where the operation ends well. Over a
/// closed socket nothing is sent.
pub proof fn law_data_is_sent_once(write: Write, replies: Seq<Reply>)
    requires
        write.phase == WritePhase::Draining(Drain::Polling),
        write_admits(write, replies),
    ensures
        write_requests(write, replies).is_prefix_of(seq![announcement(write)]),
        write_lines(write, replies).is_prefix_of(seq![write.line->0]),
        write_lines(write, replies).len() <= write_requests(write, replies).len(),
        closed_by_write(write, replies) == reported_closed(replies),
        write_requests(write, replies).len() > 0 <==> exists|i: int|
            0 <= i < replies.len() && #[trigger] replies[i] == Reply::SocketChecked(false),
        replies.len() > 0 ==> match write_step(write, replies) {
            Step::Finish(Ok(_)) => {
                &&& write_requests(write, replies) == seq![announcement(write)]
                &&& write_lines(write, replies) == seq![write.line->0]
            },
            Step::Finish(Err(error)) => error == if replies.last() is SocketChecked {
                TcpError::SocketClosed
            } else {
                TcpError::WriteError
            },
            Step::Perform(_) => true,
        },
{
    lemma_write_run(write, replies);
    if replies.len() > 0 {
        lemma_write_run(write, replies.drop_last());
    }
}

proof fn lemma_write_run(write: Write, replies: Seq<Reply>)
    requires
        write.phase == WritePhase::Draining(Drain::Polling),
        write_admits(write, replies),
    ensures
        ({
            let now = write_after(write, replies);
            let requests = write_requests(write, replies);
            let lines = write_lines(write, replies);
            &&& now.handle == write.handle
            &&& now.len == write.len
            &&& requests.is_prefix_of(seq![announcement(write)])
            &&& lines.is_prefix_of(seq![write.line->0])
            &&& lines.len() <= requests.len()
            &&& closed_by_write(write, replies) == reported_closed(replies)
            &&& requests.len() > 0 <==> exists|i: int|
                0 <= i < replies.len() && #[trigger] replies[i] == Reply::SocketChecked(false)
            &&& match now.phase {
                WritePhase::Draining(_) => requests.len() == 0 && now.line == write.line,
                WritePhase::Checking => requests.len() == 0 && now.line == write.line,
                WritePhase::Announcing => {
                    &&& requests.len() == 1
                    &&& lines.len() == 0
                    &&& now.line == write.line
                },
                WritePhase::Prompting => {
                    &&& requests.len() == 1
                    &&& lines.len() == 0
                    &&& now.line == write.line
                },
                WritePhase::Reporting(_) => requests.len() == 1 && lines.len() == 1,
                WritePhase::Finished => true,
            }
        }),
    decreases replies.len(),
{
    if replies.len() > 0 {
        let before = replies.drop_last();
        lemma_write_run(write, before);
        assert(forall|i: int| 0 <= i < before.len() ==> before[i] == #[trigger] replies[i]);
        assert(forall|i: int| 0 <= i < before.len() ==> #[trigger] before[i] == replies[i]);
        if replies.last() == Reply::SocketChecked(false) {
            assert(replies[replies.len() - 1] == Reply::SocketChecked(false));
        }
    }
}

/// The responses among the replies.
pub open spec fn responses_in(replies: Seq<Reply>) -> Seq<Response>
    decreases replies.len(),
{
    if replies.len() == 0 {
        Seq::empty()
    } else {
        let before = responses_in(replies.drop_last());
        match replies.last() {
            Reply::Response(response) => before.push(response),
            _ => before,
        }
    }
}

/// Whether the responses are those of an adapter that takes the data: it accepts the announcement,
/// prompts for the data, says any number of times how much it has received, and confirms.
pub open spec fn data_taken(responses: Seq<Response>) -> bool {
    &&& responses.len() >= 3
    &&& responses[0] is Okay
    &&& responses[1] is ReadyForData
    &&& forall|i: int| 2 <= i < responses.len() - 1 ==> responses[i] is ReceivedDataToSend
    &&& responses.last() is SendOk
}

/// How much of the data the adapter has received, by the last that it has said of it.
pub open spec fn amount_taken(responses: Seq<Response>) -> usize {
    if responses.len() > 3 {
        responses[responses.len() - 2]->ReceivedDataToSend_0
    } else {
        0
    }
}

/// Whether the responses are the first ones of an adapter that takes the data.
spec fn data_being_taken(responses: Seq<Response>) -> bool {
    &&& responses.len() >= 1 ==> responses[0] is Okay
    &&& responses.len() >= 2 ==> responses[1] is ReadyForData
    &&& forall|i: int| 2 <= i < responses.len() ==> responses[i] is ReceivedDataToSend
}

/// The phase after the announcement and some responses of an adapter that takes the data.
spec fn phase_after(responses: Seq<Response>) -> WritePhase {
    if responses.len() == 0 {
        WritePhase::Announcing
    } else if responses.len() == 1 {
        WritePhase::Prompting
    } else if responses.len() == 2 {
        WritePhase::Reporting(None)
    } else {
        WritePhase::Reporting(Some(responses.last()->ReceivedDataToSend_0))
    }
}

proof fn lemma_phase_after(write: Write, replies: Seq<Reply>)
    requires
        write.phase == WritePhase::Draining(Drain::Polling),
        write_admits(write, replies),
    ensures
        match write_after(write, replies).phase {
            WritePhase::Draining(_) => responses_in(replies).len() == 0,
            WritePhase::Checking => responses_in(replies).len() == 0,
            WritePhase::Finished => true,
            phase => {
                &&& phase == phase_after(responses_in(replies))
                &&& data_being_taken(responses_in(replies))
            },
        },
    decreases replies.len(),
{
    if replies.len() > 0 {
        lemma_phase_after(write, replies.drop_last());
    }
}

/// Data is sent well exactly where the adapter takes it, and the result is how much the adapter has
/// received by the last that it has said of it.
pub proof fn law_write_succeeds_when_data_is_taken(write: Write, replies: Seq<Reply>)
    requires
        write.phase == WritePhase::Draining(Drain::Polling),
        write_admits(write, replies),
        replies.len() > 0,
    ensures
        match write_step(write, replies) {
            Step::Finish(Ok(amount)) => {
                &&& data_taken(responses_in(replies))
                &&& amount == amount_taken(responses_in(replies))
            },
            _ => !data_taken(responses_in(replies)),
        },
{
    let before = replies.drop_last();
    lemma_phase_after(write, before);
    let responses = responses_in(replies);
    if replies.last() is Response {
        assert(responses.drop_last() =~= responses_in(before));
        assert(forall|i: int|
            0 <= i < responses.len() - 1 ==> responses_in(before)[i] == #[trigger] responses[i]);
    }
}

/// The socket that is checked is the one that the data is to be sent over, and no other.
pub proof fn law_a_write_checks_its_own_socket(write: Write, replies: Seq<Reply>)
    requires
        write.phase == WritePhase::Draining(Drain::Polling),
        write_admits(write, replies),
        replies.len() > 0,
    ensures
        write_step(write, replies) matches Step::Perform(Task::CheckSocket(handle)) ==> handle
            == write.handle,
        write_step(write, replies) matches Step::Perform(Task::CheckSocket(_))
            <==> replies.last() matches Reply::Notification(None),
{
    law_what_a_write_asks_for(write, replies);
}

/// What a write asks for, and its result, are settled by the last reply and by the responses that
/// were received so far.
pub proof fn law_what_a_write_asks_for(write: Write, replies: Seq<Reply>)
    requires
        write.phase == WritePhase::Draining(Drain::Polling),
        write_admits(write, replies),
        replies.len() > 0,
    ensures
        ({
            let count = responses_in(replies).len();
            let before = responses_in(replies.drop_last());
            write_step(write, replies) == match replies.last() {
                Reply::Notification(Some(Response::Closed(link_id))) => Step::<
                    Result<usize, TcpError>,
                >::Perform(Task::CloseSocket((link_id % 256) as u8)),
                Reply::Notification(Some(_)) => Step::Perform(Task::PollNotification),
                Reply::SocketClosed => Step::Perform(Task::PollNotification),
                Reply::Notification(None) => Step::Perform(Task::CheckSocket(write.handle)),
                Reply::SocketChecked(true) => Step::Finish(Err(TcpError::SocketClosed)),
                Reply::SocketChecked(false) => Step::Perform(
                    Task::Request(Command::Send { link_id: write.handle as usize, len: write.len }),
                ),
                Reply::Response(response) => if count == 1 && response is Okay {
                    Step::Perform(Task::Receive)
                } else if count == 2 && response is ReadyForData {
                    Step::Perform(Task::Transmit(write.line->0))
                } else if count >= 3 && response is ReceivedDataToSend {
                    Step::Perform(Task::Receive)
                } else if count == 3 && response is SendOk {
                    Step::Finish(Ok(0))
                } else if count > 3 && response is SendOk {
                    Step::Finish(Ok(before.last()->ReceivedDataToSend_0))
                } else {
                    Step::Finish(Err(TcpError::WriteError))
                },
            }
        }),
{
    let before = replies.drop_last();
    lemma_write_run(write, before);
    lemma_phase_after(write, before);
}

/// A task is asked for, and its outcome can be told; after the end nothing can. Only the prompt for
/// data that cannot be sent as one line is left out.
pub proof fn law_a_write_awaits_what_it_asked_for(write: Write, replies: Seq<Reply>, reply: Reply)
    requires
        write.phase == WritePhase::Draining(Drain::Polling),
        write_admits(write, replies),
    ensures
        write_admits(write, replies.push(reply)) <==> if replies.len() == 0 {
            reply is Notification
        } else {
            match write_step(write, replies) {
                Step::Perform(Task::PollNotification) => reply is Notification,
                Step::Perform(Task::CloseSocket(_)) => reply is SocketClosed,
                Step::Perform(Task::CheckSocket(_)) => reply is SocketChecked,
                Step::Perform(_) => reply matches Reply::Response(response) && !(response
                    is ReadyForData && responses_in(replies).len() == 1 && write.line is None),
                Step::Finish(_) => false,
            }
        },
{
    assert(replies.push(reply).drop_last() =~= replies);
    lemma_write_run(write, replies);
    lemma_phase_after(write, replies);
    if replies.len() > 0 {
        lemma_write_run(write, replies.drop_last());
        lemma_phase_after(write, replies.drop_last());
    }
}

/// The operation that receives data, after the given replies.
pub open spec fn read_after(read: Read, replies: Seq<Reply>) -> Read
    decreases replies.len(),
{
    if replies.len() == 0 {
        read
    } else {
        read_after(read, replies.drop_last()).next(replies.last()).0
    }
}

/// What the buffer holds after the given replies.
pub open spec fn buffer_after(read: Read, buf: Seq<u8>, replies: Seq<Reply>) -> Seq<u8>
    decreases replies.len(),
{
    if replies.len() == 0 {
        buf
    } else {
        read_after(read, replies.drop_last()).filled(
            buffer_after(read, buf, replies.drop_last()),
            replies.last(),
        )
    }
}

/// Whether each of the replies is an outcome of the task that is under way when it comes.
pub open spec fn read_admits(read: Read, replies: Seq<Reply>) -> bool
    decreases replies.len(),
{
    replies.len() > 0 ==> {
        &&& read_admits(read, replies.drop_last())
        &&& read_after(read, replies.drop_last()).awaits(replies.last())
    }
}

/// What follows the last of the replies.
pub open spec fn read_step(read: Read, replies: Seq<Reply>) -> Step<
    'static,
    Result<usize, TcpError>,
> {
    read_after(read, replies.drop_last()).next(replies.last()).1
}

/// The sockets that the operation asks to be marked as closed.
pub open spec fn closed_by_read(read: Read, replies: Seq<Reply>) -> Seq<u8>
    decreases replies.len(),
{
    if replies.len() == 0 {
        Seq::empty()
    } else {
        let before = closed_by_read(read, replies.drop_last());
        match read_step(read, replies) {
            Step::Perform(Task::CloseSocket(handle)) => before.push(handle),
            _ => before,
        }
    }
}

/// The data that the adapter has handed over.
pub open spec fn data_in(replies: Seq<Reply>) -> Seq<u8>
    decreases replies.len(),
{
    if replies.len() == 0 {
        Seq::empty()
    } else {
        let before = data_in(replies.drop_last());
        match replies.last() {
            Reply::Response(Response::DataReceived(data, len)) => before + data@.take(len as int),
            _ => before,
        }
    }
}

/// The data that the adapter hands over stands in the buffer, piece behind piece, and what lies
/// behind it is not touched.
pub proof fn law_data_fills_the_buffer(read: Read, buf: Seq<u8>, replies: Seq<Reply>)
    requires
        read.phase == ReadPhase::Draining(Drain::Polling),
        read.received == 0,
        buf.len() == read.room,
        read_admits(read, replies),
    ensures
        data_in(replies).len() <= read.room,
        read_after(read, replies).received == data_in(replies).len(),
        read_after(read, replies).wf(),
        buffer_after(read, buf, replies) == data_in(replies) + buf.skip(
            data_in(replies).len() as int,
        ),
        closed_by_read(read, replies) == reported_closed(replies),
    decreases replies.len(),
{
    lemma_read_run(read, replies);
    if replies.len() == 0 {
        assert(buf =~= Seq::<u8>::empty() + buf.skip(0));
    } else {
        let before = replies.drop_last();
        law_data_fills_the_buffer(read, buf, before);
        let had = data_in(before);
        match replies.last() {
            Reply::Response(Response::DataReceived(data, len)) => {
                let old_buffer = buffer_after(read, buf, before);
                assert(old_buffer.take(had.len() as int) =~= had);
                assert(old_buffer.skip(had.len() + len) =~= buf.skip(had.len() + len));
                assert(buffer_after(read, buf, replies) =~= data_in(replies) + buf.skip(
                    data_in(replies).len() as int,
                ));
            },
            _ => {},
        }
    }
}

proof fn lemma_read_run(read: Read, replies: Seq<Reply>)
    requires
        read.phase == ReadPhase::Draining(Drain::Polling),
        read.received == 0,
        read_admits(read, replies),
    ensures
        read_after(read, replies).handle == read.handle,
        read_after(read, replies).room == read.room,
        read_after(read, replies).wf(),
        read_after(read, replies).received == data_in(replies).len(),
    decreases replies.len(),
{
    if replies.len() > 0 {
        lemma_read_run(read, replies.drop_last());
    }
}

/// The result counts the data that was handed over. Data is never lost: an error is returned only
/// where there was none.
pub proof fn law_read_returns_all_data(read: Read, buf: Seq<u8>, replies: Seq<Reply>)
    requires
        read.phase == ReadPhase::Draining(Drain::Polling),
        read.received == 0,
        buf.len() == read.room,
        read_admits(read, replies),
        replies.len() > 0,
    ensures
        match read_step(read, replies) {
            Step::Finish(Ok(amount)) => {
                &&& amount == data_in(replies).len()
                &&& buffer_after(read, buf, replies).take(amount as int) == data_in(replies)
            },
            Step::Finish(Err(error)) => {
                &&& data_in(replies).len() == 0
                &&& buffer_after(read, buf, replies) == buf
                &&& error == if replies.last() is SocketChecked {
                    TcpError::SocketClosed
                } else {
                    TcpError::ReadError
                }
            },
            Step::Perform(_) => true,
        },
{
    let before = replies.drop_last();
    law_data_fills_the_buffer(read, buf, replies);
    law_data_fills_the_buffer(read, buf, before);
    let filled = buffer_after(read, buf, replies);
    assert(filled.take(data_in(replies).len() as int) =~= data_in(replies));
    if data_in(replies).len() == 0 {
        assert(filled =~= buf);
    }
}

/// A read goes on until the buffer is full, the adapter has no more data, the socket is closed or
/// the adapter answers otherwise. The last two are errors where there was no data.
pub proof fn law_when_a_read_ends(read: Read, replies: Seq<Reply>)
    requires
        read.phase == ReadPhase::Draining(Drain::Polling),
        read.received == 0,
        read_admits(read, replies),
        replies.len() > 0,
    ensures
        read_step(read, replies) is Finish <==> match replies.last() {
            Reply::SocketChecked(closed) => closed,
            Reply::Response(Response::DataReceived(_, len)) => {
                len == 0 || data_in(replies).len() == read.room
            },
            Reply::Response(_) => true,
            _ => false,
        },
        read_step(read, replies) matches Step::Finish(Err(_)) <==> {
            &&& data_in(replies).len() == 0
            &&& match replies.last() {
                Reply::SocketChecked(closed) => closed,
                Reply::Response(response) => response !is DataReceived && response !is Okay,
                _ => false,
            }
        },
{
    lemma_read_run(read, replies.drop_last());
}

/// Never more data is asked for than there is room for and a response can carry, and an adapter
/// that hands over no more than that can always be answered.
pub proof fn law_read_asks_for_what_fits(read: Read, replies: Seq<Reply>, response: Response)
    requires
        read.phase == ReadPhase::Draining(Drain::Polling),
        read.received == 0,
        read_admits(read, replies),
        replies.len() > 0,
    ensures
        read_step(read, replies) matches Step::Perform(Task::Request(command)) ==> {
            &&& command matches Command::Receive { link_id, len }
            &&& link_id == read.handle
            &&& len <= 512
            &&& data_in(replies).len() + len <= read.room
            &&& len == 512 || data_in(replies).len() + len == read.room
            &&& (response matches Response::DataReceived(_, given) ==> given <= len)
                ==> read_admits(read, replies.push(Reply::Response(response)))
        },
{
    lemma_read_run(read, replies);
    lemma_read_run(read, replies.drop_last());
    let more = replies.push(Reply::Response(response));
    assert(more.drop_last() =~= replies);
}

/// What a read asks for, and its result, are settled by the last reply and by the data that was
/// handed over so far. Over an open socket it always asks for data, as much as there is room for and
/// a response can carry.
pub proof fn law_what_a_read_asks_for(read: Read, replies: Seq<Reply>)
    requires
        read.phase == ReadPhase::Draining(Drain::Polling),
        read.received == 0,
        read_admits(read, replies),
        replies.len() > 0,
    ensures
        ({
            let amount = data_in(replies).len();
            let left = read.room - amount;
            read_step(read, replies) == match replies.last() {
                Reply::Notification(Some(Response::Closed(link_id))) => Step::<
                    Result<usize, TcpError>,
                >::Perform(Task::CloseSocket((link_id % 256) as u8)),
                Reply::Notification(Some(_)) => Step::Perform(Task::PollNotification),
                Reply::SocketClosed => Step::Perform(Task::PollNotification),
                Reply::Notification(None) => Step::Perform(Task::CheckSocket(read.handle)),
                Reply::SocketChecked(true) => if amount == 0 {
                    Step::Finish(Err(TcpError::SocketClosed))
                } else {
                    Step::Finish(Ok(amount as usize))
                },
                Reply::SocketChecked(false) => Step::Perform(
                    Task::Request(
                        Command::Receive {
                            link_id: read.handle as usize,
                            len: if left <= 512 {
                                left as usize
                            } else {
                                512
                            },
                        },
                    ),
                ),
                Reply::Response(Response::DataReceived(_, len)) => if len == 0 || left == 0 {
                    Step::Finish(Ok(amount as usize))
                } else {
                    Step::Perform(Task::PollNotification)
                },
                Reply::Response(Response::Okay) => Step::Finish(Ok(amount as usize)),
                Reply::Response(_) => if amount == 0 {
                    Step::Finish(Err(TcpError::ReadError))
                } else {
                    Step::Finish(Ok(amount as usize))
                },
            }
        }),
{
    let before = replies.drop_last();
    lemma_read_run(read, before);
    lemma_read_run(read, replies);
}

/// Data is asked for exactly where the socket was found open.
pub proof fn law_an_open_socket_is_asked_for_data(read: Read, replies: Seq<Reply>)
    requires
        read.phase == ReadPhase::Draining(Drain::Polling),
        read.received == 0,
        read_admits(read, replies),
        replies.len() > 0,
    ensures
        read_step(read, replies) matches Step::Perform(Task::Request(_)) <==> replies.last()
            == Reply::SocketChecked(false),
        read_step(read, replies) matches Step::Perform(Task::CheckSocket(handle)) ==> handle
            == read.handle,
        read_step(read, replies) matches Step::Perform(Task::CheckSocket(_))
            <==> replies.last() matches Reply::Notification(None),
{
    law_what_a_read_asks_for(read, replies);
}

/// A task is asked for, and its outcome can be told; after the end nothing can. Only data that a
/// response cannot carry or that there is no room for is left out.
pub proof fn law_a_read_awaits_what_it_asked_for(read: Read, replies: Seq<Reply>, reply: Reply)
    requires
        read.phase == ReadPhase::Draining(Drain::Polling),
        read.received == 0,
        read_admits(read, replies),
    ensures
        read_admits(read, replies.push(reply)) <==> if replies.len() == 0 {
            reply is Notification
        } else {
            match read_step(read, replies) {
                Step::Perform(Task::PollNotification) => reply is Notification,
                Step::Perform(Task::CloseSocket(_)) => reply is SocketClosed,
                Step::Perform(Task::CheckSocket(_)) => reply is SocketChecked,
                Step::Perform(_) => match reply {
                    Reply::Response(Response::DataReceived(_, len)) => {
                        len <= 512 && data_in(replies).len() + len <= read.room
                    },
                    Reply::Response(_) => true,
                    _ => false,
                },
                Step::Finish(_) => false,
            }
        },
{
    assert(replies.push(reply).drop_last() =~= replies);
    lemma_read_run(read, replies);
    if replies.len() > 0 {
        lemma_read_run(read, replies.drop_last());
    }
}

/// The address that an answer reports is the adapter's own, and only one kind of answer reports it.
pub proof fn law_which_address_is_reported(response: Response)
    ensures
        match reported_address(response) {
            Ok(address) => {
                &&& response matches Response::IpAddresses(addresses)
                &&& address == IpAddress::V4(addresses.ip)
            },
            Err(()) => response !is IpAddresses,
        },
{
}

/// The operation that joins an access point, after the given responses.
pub open spec fn joining_after(responses: Seq<Response>) -> Joining
    decreases responses.len(),
{
    if responses.len() == 0 {
        Joining { phase: JoinPhase::Associating }
    } else {
        joining_after(responses.drop_last()).next(Reply::Response(responses.last())).0
    }
}

/// What follows the last of the responses.
pub open spec fn joining_step(responses: Seq<Response>) -> Step<
    'static,
    Result<IpAddress, JoinError>,
> {
    joining_after(responses.drop_last()).next(Reply::Response(responses.last())).1
}

/// An access point is joined exactly where the adapter accepts the command and then reports its
/// addresses, and the result is the address that it reports.
pub proof fn law_join_returns_the_reported_address(responses: Seq<Response>)
    requires
        responses.len() > 0,
        joining_after(responses.drop_last()).phase !is Finished,
    ensures
        responses.len() <= 2,
        match joining_step(responses) {
            Step::Finish(Ok(address)) => {
                &&& responses.len() == 2
                &&& responses[0] is Okay
                &&& responses[1] matches Response::IpAddresses(addresses)
                &&& address == IpAddress::V4(addresses.ip)
            },
            Step::Finish(Err(JoinError::Unknown)) => {
                ||| responses.len() == 1 && responses[0] is WifiConnectionFailure
                ||| responses.len() == 2 && responses[1] !is IpAddresses
            },
            Step::Finish(Err(JoinError::UnableToAssociate)) => {
                &&& responses.len() == 1
                &&& responses[0] !is Okay
                &&& responses[0] !is WifiConnectionFailure
            },
            Step::Perform(task) => {
                &&& responses.len() == 1
                &&& responses[0] is Okay
                &&& task == Task::Request(Command::QueryIpAddress)
            },
        },
{
    let one = responses.drop_last();
    if responses.len() >= 2 {
        let two = one.drop_last();
        if responses.len() >= 3 {
            assert(joining_after(two).phase !is Associating);
        }
    }
}

/// A response can be told at the start and after one that accepts the command to join, and at no
/// other time.
pub proof fn law_a_joining_awaits_what_it_asked_for(responses: Seq<Response>, reply: Reply)
    requires
        responses.len() > 0 ==> joining_after(responses.drop_last()).phase !is Finished,
    ensures
        joining_after(responses).awaits(reply) <==> {
            &&& reply is Response
            &&& responses.len() == 0 || responses.len() == 1 && responses[0] is Okay
        },
{
    if responses.len() > 0 {
        law_join_returns_the_reported_address(responses);
        let one = responses.drop_last();
        if responses.len() == 1 {
            assert(joining_after(one).phase is Associating);
        } else {
            assert(one.drop_last().len() == 0);
            assert(joining_after(one.drop_last()).phase is Associating);
        }
    }
}

} // verus!
