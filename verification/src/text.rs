//! Lines of text on their way to the adapter.
use vstd::prelude::*;
use vstd::utf8::encode_utf8;
use vstd::utf8::valid_utf8;

verus! {

/// The number of bytes that a line can hold.
pub const LINE_CAPACITY: usize = 128;

/// A line of text for the adapter, held in a `heapless::String` of fixed capacity.
#[verifier::external_body]
pub struct Line {
    inner: heapless::String<heapless::consts::U128>,
}

/// The bytes of data for the adapter, held in a `heapless::Vec` of fixed capacity.
#[verifier::external_body]
pub struct Payload {
    inner: heapless::Vec<u8, heapless::consts::U128>,
}

/// The error of a conversion from bytes to text.
#[verifier::external_type_specification]
#[verifier::external_body]
pub struct ExUtf8Error(core::str::Utf8Error);

/// The bytes that a line holds.
pub uninterp spec fn line_bytes(line: Line) -> Seq<u8>;

/// The bytes that a payload holds.
pub uninterp spec fn payload_bytes(payload: Payload) -> Seq<u8>;

impl View for Line {
    type V = Seq<u8>;

    open spec fn view(&self) -> Seq<u8> {
        line_bytes(*self)
    }
}

/// Calls `heapless::String::new`: the string is empty.
#[verifier::external_body]
fn string_new() -> (line: Line)
    ensures
        line_bytes(line) == Seq::<u8>::empty(),
{
    Line { inner: heapless::String::new() }
}

/// Calls `heapless::String::push_str`: text that fits into what is left of the capacity is
/// appended, and other text is refused, with the string left as it was.
#[verifier::external_body]
fn string_push_str(line: &mut Line, tail: &str) -> (res: Result<(), ()>)
    ensures
        res is Ok <==> line_bytes(*old(line)).len() + encode_utf8(tail@).len() <= LINE_CAPACITY,
        res is Ok ==> line_bytes(*final(line)) == line_bytes(*old(line)) + encode_utf8(tail@),
        res is Err ==> line_bytes(*final(line)) == line_bytes(*old(line)),
{
    line.inner.push_str(tail)
}

/// Calls `heapless::String::as_str`: the text is the one whose bytes the string holds, and no
/// string holds more than its capacity.
#[verifier::external_body]
fn string_as_str(line: &Line) -> (text: &str)
    ensures
        encode_utf8(text@) == line_bytes(*line),
        encode_utf8(text@).len() <= LINE_CAPACITY,
{
    line.inner.as_str()
}

/// Calls `heapless::Vec::from_slice`: bytes that fit into the capacity are copied, and more
/// are refused.
#[verifier::external_body]
fn vec_from_slice(bytes: &[u8]) -> (res: Result<Payload, ()>)
    ensures
        res is Ok <==> bytes@.len() <= LINE_CAPACITY,
        res matches Ok(payload) ==> payload_bytes(payload) == bytes@,
{
    match heapless::Vec::from_slice(bytes) {
        Ok(inner) => Ok(Payload { inner }),
        Err(e) => Err(e),
    }
}

/// Calls `heapless::String::from_utf8`: bytes that are valid UTF-8 become the string that holds
/// them, and others are refused.
#[verifier::external_body]
fn string_from_utf8(payload: Payload) -> (res: Result<Line, core::str::Utf8Error>)
    ensures
        res is Ok <==> valid_utf8(payload_bytes(payload)),
        res matches Ok(line) ==> line_bytes(line) == payload_bytes(payload),
{
    match heapless::String::from_utf8(payload.inner) {
        Ok(inner) => Ok(Line { inner }),
        Err(e) => Err(e),
    }
}

/// Whether bytes can be sent to the adapter as one line.
pub open spec fn transmittable(bytes: Seq<u8>) -> bool {
    bytes.len() <= LINE_CAPACITY && valid_utf8(bytes)
}

/// The end of a command line.
pub open spec fn line_end() -> Seq<u8> {
    seq![13u8, 10u8]
}

/// A command line with its end, as far as the end fits into the capacity of a line.
pub open spec fn terminated(bytes: Seq<u8>) -> Seq<u8> {
    if bytes.len() + line_end().len() <= LINE_CAPACITY {
        bytes + line_end()
    } else {
        bytes
    }
}

impl Line {
    /// The line that holds the given text, where the text fits into a line.
    pub fn from_text(text: &str) -> (res: Option<Line>)
        ensures
            res is Some <==> encode_utf8(text@).len() <= 128,
            res matches Some(line) ==> line@ == encode_utf8(text@),
    {
        let mut line = string_new();
        match string_push_str(&mut line, text) {
            Ok(()) => {
                assert(line@ =~= encode_utf8(text@));
                Some(line)
            },
            Err(()) => None,
        }
    }

    /// The line that holds the given bytes, where they can be sent as one.
    pub fn from_payload(bytes: &[u8]) -> (res: Option<Line>)
        ensures
            res is Some <==> transmittable(bytes@),
            res is Some <==> bytes@.len() <= 128 && valid_utf8(bytes@),
            res matches Some(line) ==> line@ == bytes@,
    {
        match vec_from_slice(bytes) {
            Ok(payload) => match string_from_utf8(payload) {
                Ok(line) => Some(line),
                Err(_) => None,
            },
            Err(()) => None,
        }
    }

    /// Puts the end of a line behind a command. A command that leaves no room for it stays as it
    /// is.
    pub fn terminate(self) -> (line: Line)
        ensures
            line@ == terminated(self@),
            self@.len() + 2 <= 128 ==> line@ == self@ + seq![13u8, 10u8],
            self@.len() + 2 > 128 ==> line@ == self@,
    {
        let mut line = self;
        proof {
            reveal_strlit("\r\n");
            vstd::utf8::is_ascii_chars_encode_utf8("\r\n"@);
            assert(encode_utf8("\r\n"@) =~= line_end());
        }
        let _ = string_push_str(&mut line, "\r\n");
        line
    }

    /// The bytes of the line.
    pub fn as_bytes(&self) -> (bytes: &[u8])
        ensures
            bytes@ == self@,
            bytes@.len() <= 128,
    {
        string_as_str(self).as_bytes()
    }
}

/// The line of a command that leaves room for the end is the text of the command and the end, with
/// nothing in between and nothing behind. That of another command is its text alone. Either way it
/// fits into a line.
pub proof fn law_commands_are_terminated(text: Seq<u8>)
    requires
        text.len() <= LINE_CAPACITY,
    ensures
        text.is_prefix_of(terminated(text)),
        text.len() <= 126 ==> terminated(text) == text + seq![13u8, 10u8],
        text.len() > 126 ==> terminated(text) == text,
        terminated(text).len() <= 128,
{
}

/// Two commands that leave room for the end have the same line only if they are the same.
pub proof fn law_lines_tell_commands_apart(first: Seq<u8>, second: Seq<u8>)
    requires
        first.len() <= 126,
        second.len() <= 126,
        terminated(first) == terminated(second),
    ensures
        first == second,
{
    law_commands_are_terminated(first);
    law_commands_are_terminated(second);
    assert(first =~= terminated(first).take(first.len() as int));
    assert(second =~= terminated(second).take(second.len() as int));
}

/// Data can be sent as one line exactly where it is valid UTF-8 of at most 128 bytes.
pub proof fn law_what_can_be_sent(bytes: Seq<u8>)
    ensures
        transmittable(bytes) <==> bytes.len() <= 128 && valid_utf8(bytes),
{
}

} // verus!
