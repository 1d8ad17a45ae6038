//! What the adapter sends while it is configured: its announcement and its replies.
use vstd::prelude::*;
use vstd::utf8::encode_utf8;

use crate::error::AdapterError;


verus! {

/// The number of bytes that the adapter may send up to and with its announcement.
pub const READY_CAPACITY: usize = 1024;

/// The number of bytes that the adapter may send in reply to a configuration line.
pub const REPLY_CAPACITY: usize = 64;

/// The announcement of an adapter that can be configured.
pub open spec fn ready_mark() -> Seq<u8> {
    encode_utf8("ready\r\n"@)
}

/// The end of a reply that accepts a line.
pub open spec fn ok_mark() -> Seq<u8> {
    encode_utf8("OK\r\n"@)
}

/// The end of a reply that refuses a line.
pub open spec fn error_mark() -> Seq<u8> {
    encode_utf8("ERROR\r\n"@)
}

/// The bytes of the marks.
pub proof fn lemma_marks()
    ensures
        ready_mark() == seq![114u8, 101u8, 97u8, 100u8, 121u8, 13u8, 10u8],
        ok_mark() == seq![79u8, 75u8, 13u8, 10u8],
        error_mark() == seq![69u8, 82u8, 82u8, 79u8, 82u8, 13u8, 10u8],
{
    reveal_strlit("ready\r\n");
    reveal_strlit("OK\r\n");
    reveal_strlit("ERROR\r\n");
    vstd::utf8::is_ascii_chars_encode_utf8("ready\r\n"@);
    vstd::utf8::is_ascii_chars_encode_utf8("OK\r\n"@);
    vstd::utf8::is_ascii_chars_encode_utf8("ERROR\r\n"@);
    assert(ready_mark() =~= seq![114u8, 101u8, 97u8, 100u8, 121u8, 13u8, 10u8]);
    assert(ok_mark() =~= seq![79u8, 75u8, 13u8, 10u8]);
    assert(error_mark() =~= seq![69u8, 82u8, 82u8, 79u8, 82u8, 13u8, 10u8]);
}

/// Whether the bytes end with the mark.
fn ends_with(bytes: &Vec<u8>, mark: &[u8]) -> (res: bool)
    ensures
        res == mark@.is_suffix_of(bytes@),
{
    if mark.len() > bytes.len() {
        return false;
    }
    let start: usize = bytes.len() - mark.len();
    let mut i: usize = 0;
    while i < mark.len()
        invariant
            start + mark.len() == bytes.len(),
            i <= mark.len(),
            forall|j: int| 0 <= j < i ==> bytes@[start + j] == #[trigger] mark@[j],
        decreases mark.len() - i,
    {
        if bytes[start + i] != mark[i] {
            assert(bytes@.subrange(start as int, bytes@.len() as int)[i as int] != mark@[i as int]);
            return false;
        }
        i = i + 1;
    }
    assert(bytes@.subrange(start as int, bytes@.len() as int) =~= mark@);
    true
}

/// Watches what the adapter sends for its announcement.
pub struct ReadyScan {
    seen: Vec<u8>,
}

impl View for ReadyScan {
    type V = Seq<u8>;

    closed spec fn view(&self) -> Seq<u8> {
        self.seen@
    }
}

impl ReadyScan {
    /// A scan that has seen nothing.
    pub fn new() -> (scan: Self)
        ensures
            scan@ == Seq::<u8>::empty(),
    {
        ReadyScan { seen: Vec::new() }
    }

    /// Whether the scan has seen as much as it can.
    pub fn is_full(&self) -> (full: bool)
        ensures
            full == (self@.len() >= 1024),
    {
        self.seen.len() >= READY_CAPACITY
    }

    /// Takes the next byte, and tells whether the announcement ends with it.
    pub fn feed(&mut self, byte: u8) -> (ready: bool)
        requires
            old(self)@.len() < 1024,
        ensures
            final(self)@ == old(self)@.push(byte),
            ready == ready_mark().is_suffix_of(final(self)@),
    {
        self.seen.push(byte);
        ends_with(&self.seen, "ready\r\n".as_bytes())
    }
}

/// What a reply of the given bytes means, if it is complete.
pub open spec fn verdict(reply: Seq<u8>) -> Option<Result<(), AdapterError>> {
    if ok_mark().is_suffix_of(reply) {
        Some(Ok(()))
    } else if error_mark().is_suffix_of(reply) {
        Some(Err(AdapterError::UnableToInitialize))
    } else {
        None
    }
}

/// Waits for the end of the adapter's reply to a configuration line.
pub struct OkScan {
    seen: Vec<u8>,
}

impl View for OkScan {
    type V = Seq<u8>;

    closed spec fn view(&self) -> Seq<u8> {
        self.seen@
    }
}

impl OkScan {
    /// A scan that has seen nothing.
    pub fn new() -> (scan: Self)
        ensures
            scan@ == Seq::<u8>::empty(),
    {
        OkScan { seen: Vec::new() }
    }

    /// Whether the scan has seen as much as it can.
    pub fn is_full(&self) -> (full: bool)
        ensures
            full == (self@.len() >= 64),
    {
        self.seen.len() >= REPLY_CAPACITY
    }

    /// Takes the outcome of reading the next byte, and tells what the reply means as soon as that
    /// is known.
    pub fn feed(&mut self, read: Result<u8, ()>) -> (res: Option<Result<(), AdapterError>>)
        requires
            old(self)@.len() < 64,
        ensures
            match read {
                Ok(byte) => {
                    &&& final(self)@ == old(self)@.push(byte)
                    &&& res == verdict(final(self)@)
                },
                Err(()) => {
                    &&& final(self)@ == old(self)@
                    &&& res == Some(Err::<(), AdapterError>(AdapterError::ReadError))
                },
            },
    {
        match read {
            Ok(byte) => {
                self.seen.push(byte);
                if ends_with(&self.seen, "OK\r\n".as_bytes()) {
                    Some(Ok(()))
                } else if ends_with(&self.seen, "ERROR\r\n".as_bytes()) {
                    Some(Err(AdapterError::UnableToInitialize))
                } else {
                    None
                }
            },
            Err(()) => Some(Err(AdapterError::ReadError)),
        }
    }
}

/// A reply accepts a setting exactly where it ends with `OK`, and refuses it exactly where it ends
/// with `ERROR`, each with the end of a line. Any other reply is not complete.
pub proof fn law_what_replies_mean(reply: Seq<u8>)
    ensures
        verdict(reply) matches Some(Ok(_)) <==> seq![79u8, 75u8, 13u8, 10u8].is_suffix_of(reply),
        verdict(reply) matches Some(Err(_)) <==> seq![
            69u8,
            82u8,
            82u8,
            79u8,
            82u8,
            13u8,
            10u8,
        ].is_suffix_of(reply),
        verdict(reply) matches Some(Err(error)) ==> error == AdapterError::UnableToInitialize,
{
    lemma_marks();
    if ok_mark().is_suffix_of(reply) && error_mark().is_suffix_of(reply) {
        let place = reply.len() - 3;
        assert(reply[place] == reply.subrange(reply.len() - 4, reply.len() as int)[1]);
        assert(reply[place] == reply.subrange(reply.len() - 7, reply.len() as int)[4]);
    }
}

} // verus!
