//! Opaque byte messages carried to and from the device by a transport.

use vstd::prelude::*;
use crate::command::{self, command_parses, decode_command};
use crate::error::SessionErrorKind;

verus! {

/// Messages sent to/from the HSM
pub struct Message(pub Vec<u8>);

impl View for Message {
    type V = Seq<u8>;

    open spec fn view(&self) -> Seq<u8> {
        self.0@
    }
}

impl Message {
    /// Wrap the bytes of one whole message.
    pub fn from_vec(bytes: Vec<u8>) -> (r: Message)
        ensures
            r@ == bytes@,
    {
        Message(bytes)
    }

    /// The bytes of this message.
    pub fn into_vec(self) -> (r: Vec<u8>)
        ensures
            r@ == self@,
    {
        self.0
    }

    /// Parse a command envelope from this message
    pub fn parse(self) -> (r: Result<command::Message, SessionErrorKind>)
        ensures
            match r {
                Ok(m) => command_parses(self@) && m@ == decode_command(self@),
                Err(e) => !command_parses(self@) && e == SessionErrorKind::ProtocolError,
            },
    {
        command::Message::parse(self.0)
    }

    /// The bytes of this message, borrowed.
    pub fn as_bytes(&self) -> (r: &[u8])
        ensures
            r@ == self@,
    {
        self.0.as_slice()
    }
}

/// Copy `bytes[start..end]` into a new vector.
pub fn copy_range(bytes: &[u8], start: usize, end: usize) -> (r: Vec<u8>)
    requires
        start <= end <= bytes@.len(),
    ensures
        r@ == bytes@.subrange(start as int, end as int),
{
    let mut r: Vec<u8> = Vec::new();
    let mut i: usize = start;
    while i < end
        invariant
            start <= i <= end <= bytes@.len(),
            r@ == bytes@.subrange(start as int, i as int),
        decreases end - i,
    {
        r.push(bytes[i]);
        i = i + 1;
    }
    r
}

} // verus!
