//! Commands sent to the HSM: the command envelope and its byte encoding.

use vstd::prelude::*;
use crate::connector::{self, copy_range};
use crate::error::SessionErrorKind;
use crate::response::{
    be16, opt_byte, opt_bytes, AUTHENTICATE_SESSION, MAX_COMMAND_CODE, MAC_SIZE, MAX_SESSIONS, SESSION_MESSAGE,
};

verus! {

/// A byte that names a command the device knows.
pub open spec fn command_code_valid(c: u8) -> bool {
    1 <= c <= MAX_COMMAND_CODE
}

/// Do commands with the given code carry a session id and a MAC?
pub open spec fn is_session_scoped_spec(c: u8) -> bool {
    c == AUTHENTICATE_SESSION || c == SESSION_MESSAGE
}

/// Do commands with the given code carry a session id and a MAC?
pub fn is_session_scoped(c: u8) -> (r: bool)
    ensures
        r == is_session_scoped_spec(c),
{
    c == AUTHENTICATE_SESSION || c == SESSION_MESSAGE
}

/// Abstract value of a command envelope.
pub struct CommandView {
    pub command_type: u8,
    pub session_id: Option<u8>,
    pub data: Seq<u8>,
    pub mac: Option<Seq<u8>>,
}

/// A command envelope
#[derive(Debug)]
pub struct Message {
    /// Command code
    pub command_type: u8,
    /// Session ID of a session-scoped command
    pub session_id: Option<u8>,
    /// Command payload
    pub data: Vec<u8>,
    /// MAC of a session-scoped command
    pub mac: Option<Vec<u8>>,
}

impl View for Message {
    type V = CommandView;

    open spec fn view(&self) -> CommandView {
        CommandView {
            command_type: self.command_type,
            session_id: self.session_id,
            data: self.data@,
            mac: match self.mac {
                Some(m) => Some(m@),
                None => None,
            },
        }
    }
}

/// Everything that follows the length field: session id, payload, MAC.
pub open spec fn command_body(m: CommandView) -> Seq<u8> {
    opt_byte(m.session_id) + m.data + opt_bytes(m.mac)
}

/// The wire encoding of a command: code, big-endian body length, body.
pub open spec fn encode_command(m: CommandView) -> Seq<u8> {
    seq![m.command_type] + be16(command_body(m).len()) + command_body(m)
}

/// A command whose fields agree with its code.
pub open spec fn command_well_formed(m: CommandView) -> bool {
    &&& command_code_valid(m.command_type)
    &&& m.session_id.is_some() == is_session_scoped_spec(m.command_type)
    &&& (m.session_id matches Some(s) ==> s < MAX_SESSIONS)
    &&& m.mac.is_some() == is_session_scoped_spec(m.command_type)
    &&& (m.mac matches Some(t) ==> t.len() == MAC_SIZE)
    &&& command_body(m).len() <= 0xffff
}

/// The bytes are a whole, well-formed command.
pub open spec fn command_parses(b: Seq<u8>) -> bool {
    &&& b.len() >= 3
    &&& command_code_valid(b[0])
    &&& b[1] as nat * 256 + b[2] as nat + 3 == b.len()
    &&& (is_session_scoped_spec(b[0]) ==> b.len() >= 4 + MAC_SIZE && b[3] < MAX_SESSIONS)
}

/// The command that bytes which parse stand for.
pub open spec fn decode_command(b: Seq<u8>) -> CommandView {
    if is_session_scoped_spec(b[0]) {
        CommandView {
            command_type: b[0],
            session_id: Some(b[3]),
            data: b.subrange(4, b.len() - MAC_SIZE),
            mac: Some(b.subrange(b.len() - MAC_SIZE, b.len() as int)),
        }
    } else {
        CommandView { command_type: b[0], session_id: None, data: b.subrange(3, b.len() as int), mac: None }
    }
}

impl Message {
    /// Create a command outside any session.
    pub fn create(command_type: u8, data: Vec<u8>) -> (r: Message)
        ensures
            r@ == (CommandView { command_type, session_id: None, data: data@, mac: None }),
    {
        Message { command_type, session_id: None, data, mac: None }
    }

    /// Create a session-scoped command with its MAC.
    pub fn new_with_mac(command_type: u8, session_id: u8, data: Vec<u8>, mac: Vec<u8>) -> (r:
        Message)
        ensures
            r@ == (CommandView {
                command_type,
                session_id: Some(session_id),
                data: data@,
                mac: Some(mac@),
            }),
    {
        Message { command_type, session_id: Some(session_id), data, mac: Some(mac) }
    }

    /// Parse a command from its bytes.
    pub fn parse(bytes: Vec<u8>) -> (r: Result<Message, SessionErrorKind>)
        ensures
            match r {
                Ok(m) => command_parses(bytes@) && m@ == decode_command(bytes@),
                Err(e) => !command_parses(bytes@) && e == SessionErrorKind::ProtocolError,
            },
    {
        let n = bytes.len();
        if n < 3 || bytes[0] < 1 || bytes[0] > MAX_COMMAND_CODE {
            return Err(SessionErrorKind::ProtocolError);
        }
        let command_type = bytes[0];
        let length: usize = (bytes[1] as usize) * 256 + (bytes[2] as usize);
        if length != n - 3 {
            return Err(SessionErrorKind::ProtocolError);
        }
        if is_session_scoped(command_type) {
            if n < 4 + MAC_SIZE || bytes[3] >= MAX_SESSIONS {
                return Err(SessionErrorKind::ProtocolError);
            }
            let data = copy_range(bytes.as_slice(), 4, n - MAC_SIZE);
            let mac = copy_range(bytes.as_slice(), n - MAC_SIZE, n);
            let m = Message { command_type, session_id: Some(bytes[3]), data, mac: Some(mac) };
            assert(m@ =~= decode_command(bytes@));
            Ok(m)
        } else {
            let data = copy_range(bytes.as_slice(), 3, n);
            let m = Message { command_type, session_id: None, data, mac: None };
            assert(m@ =~= decode_command(bytes@));
            Ok(m)
        }
    }

    /// Serialize this command, consuming it and producing its bytes
    pub fn into_bytes(self) -> (r: Vec<u8>)
        requires
            command_body(self@).len() <= 0xffff,
        ensures
            r@ == encode_command(self@),
    {
        let ghost v = self@;
        let Message { command_type, session_id, data, mac } = self;
        let mut body_len: usize = data.len();
        if session_id.is_some() {
            body_len = body_len + 1;
        }
        let mut result: Vec<u8> = Vec::new();
        result.push(command_type);
        match &mac {
            Some(t) => {
                body_len = body_len + t.len();
            },
            None => {},
        }
        assert(body_len == command_body(v).len());
        result.push((body_len / 256) as u8);
        result.push((body_len % 256) as u8);
        if let Some(s) = session_id {
            result.push(s);
        }
        let mut data = data;
        result.append(&mut data);
        if let Some(t) = mac {
            let mut t = t;
            result.append(&mut t);
        }
        assert(result@ =~= encode_command(v));
        result
    }
}

/// Decoding the encoding of a well-formed command gives that command back.
pub proof fn lemma_decode_encode_command(m: CommandView)
    requires
        command_well_formed(m),
    ensures
        command_parses(encode_command(m)),
        decode_command(encode_command(m)) == m,
{
    let b = encode_command(m);
    let n = command_body(m).len();
    assert(n / 256 < 256 && (n / 256) * 256 + n % 256 == n) by (nonlinear_arith)
        requires
            n <= 0xffff,
    ;
    let d = decode_command(b);
    assert(d.data =~= m.data);
    if is_session_scoped_spec(m.command_type) {
        assert(d.mac.unwrap() =~= m.mac.unwrap());
    }
    assert(d == m);
}

/// Encoding the decoding of bytes that parse gives those bytes back.
pub proof fn lemma_encode_decode_command(b: Seq<u8>)
    requires
        command_parses(b),
    ensures
        command_well_formed(decode_command(b)),
        encode_command(decode_command(b)) =~= b,
{
    let m = decode_command(b);
    let n = b[1] as nat * 256 + b[2] as nat;
    assert(command_body(m) =~= b.subrange(3, b.len() as int));
    assert((n / 256) as u8 == b[1] && (n % 256) as u8 == b[2]) by (nonlinear_arith)
        requires
            n == b[1] as nat * 256 + b[2] as nat,
            b[1] < 256,
            b[2] < 256,
    ;
}

} // verus!
