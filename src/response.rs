//! Responses sent by the HSM after executing a command: the response
//! envelope and its byte encoding.

use vstd::prelude::*;
use crate::connector::{self, copy_range};
use crate::error::{
    device_error_code, lemma_device_error_code_injective, DeviceErrorKind, SessionErrorKind,
};

verus! {

/// Size of a message authentication code in bytes
pub const MAC_SIZE: usize = 8;

/// Number of session slots of the device; session ids lie below it
pub const MAX_SESSIONS: u8 = 16;

/// Command code that opens a session
pub const CREATE_SESSION: u8 = 0x03;

/// Command code that authenticates the host in a new session
pub const AUTHENTICATE_SESSION: u8 = 0x04;

/// Command code of an encrypted in-session message
pub const SESSION_MESSAGE: u8 = 0x05;

/// Largest command code that the device knows
pub const MAX_COMMAND_CODE: u8 = 0x6b;

/// Response code byte of a device error
pub const DEVICE_ERROR_CODE: u8 = 0x7f;

/// Bit set in the response code of every success
pub const SUCCESS_BIT: u8 = 0x80;

/// Response codes: success for a command, or a device error
#[derive(Copy, Clone, Debug, PartialEq, Eq, Structural)]
pub enum Code {
    /// Success for the given command code
    Success(u8),
    /// The device reports an error; its kind is the first payload byte
    DeviceError,
}

/// A code that can be put on the wire: a known command code, or a device error.
pub open spec fn code_valid(c: Code) -> bool {
    match c {
        Code::Success(cmd) => 1 <= cmd <= MAX_COMMAND_CODE,
        Code::DeviceError => true,
    }
}

/// A byte that names a response code.
pub open spec fn code_byte_valid(b: u8) -> bool {
    b == DEVICE_ERROR_CODE || (b > SUCCESS_BIT && b - SUCCESS_BIT <= MAX_COMMAND_CODE)
}

/// The code named by a valid code byte.
pub open spec fn code_of_byte(b: u8) -> Code {
    if b == DEVICE_ERROR_CODE {
        Code::DeviceError
    } else {
        Code::Success((b - SUCCESS_BIT) as u8)
    }
}

/// The byte that names a valid code.
pub open spec fn code_to_byte(c: Code) -> u8 {
    match c {
        Code::Success(cmd) => (cmd + SUCCESS_BIT) as u8,
        Code::DeviceError => DEVICE_ERROR_CODE,
    }
}

impl Code {
    /// Decode a response code byte.
    pub fn from_u8(b: u8) -> (r: Result<Code, SessionErrorKind>)
        ensures
            code_byte_valid(b) ==> r == Ok::<Code, SessionErrorKind>(code_of_byte(b)),
            !code_byte_valid(b) ==> r == Err::<Code, SessionErrorKind>(
                SessionErrorKind::ProtocolError,
            ),
    {
        if b == DEVICE_ERROR_CODE {
            Ok(Code::DeviceError)
        } else if b > SUCCESS_BIT && b - SUCCESS_BIT <= MAX_COMMAND_CODE {
            Ok(Code::Success(b - SUCCESS_BIT))
        } else {
            Err(SessionErrorKind::ProtocolError)
        }
    }

    /// Encode this response code as a byte.
    pub fn to_u8(self) -> (r: u8)
        requires
            code_valid(self),
        ensures
            r == code_to_byte(self),
    {
        match self {
            Code::Success(cmd) => cmd + SUCCESS_BIT,
            Code::DeviceError => DEVICE_ERROR_CODE,
        }
    }
}

/// Do responses with the given code include a session ID?
pub open spec fn has_session_id_spec(c: Code) -> bool {
    c == Code::Success(CREATE_SESSION) || c == Code::Success(SESSION_MESSAGE)
}

/// Do responses with the given code have a Response-MAC (R-MAC) value?
pub open spec fn has_rmac_spec(c: Code) -> bool {
    c == Code::Success(SESSION_MESSAGE)
}

/// Do responses with the given code include a session ID?
pub fn has_session_id(code: Code) -> (r: bool)
    ensures
        r == has_session_id_spec(code),
{
    match code {
        Code::Success(cmd) => cmd == CREATE_SESSION || cmd == SESSION_MESSAGE,
        Code::DeviceError => false,
    }
}

/// Do responses with the given code have a Response-MAC (R-MAC) value?
pub fn has_rmac(code: Code) -> (r: bool)
    ensures
        r == has_rmac_spec(code),
{
    match code {
        Code::Success(cmd) => cmd == SESSION_MESSAGE,
        Code::DeviceError => false,
    }
}

/// Abstract value of a response envelope.
pub struct MessageView {
    pub code: Code,
    pub session_id: Option<u8>,
    pub data: Seq<u8>,
    pub mac: Option<Seq<u8>>,
}

/// Command responses
#[derive(Debug)]
pub struct Message {
    /// Success (for a given command type) or an error type
    pub code: Code,
    /// Session ID for this response
    pub session_id: Option<u8>,
    /// "Response Data Field"
    pub data: Vec<u8>,
    /// Optional Message Authentication Code (MAC)
    pub mac: Option<Vec<u8>>,
}

impl View for Message {
    type V = MessageView;

    open spec fn view(&self) -> MessageView {
        MessageView {
            code: self.code,
            session_id: self.session_id,
            data: self.data@,
            mac: match self.mac {
                Some(m) => Some(m@),
                None => None,
            },
        }
    }
}

/// The bytes of an optional byte field.
pub open spec fn opt_byte(o: Option<u8>) -> Seq<u8> {
    match o {
        Some(b) => seq![b],
        None => Seq::empty(),
    }
}

/// The bytes of an optional byte-string field.
pub open spec fn opt_bytes(o: Option<Seq<u8>>) -> Seq<u8> {
    match o {
        Some(s) => s,
        None => Seq::empty(),
    }
}

/// Everything that follows the length field: session id, data, MAC.
pub open spec fn body_of(m: MessageView) -> Seq<u8> {
    opt_byte(m.session_id) + m.data + opt_bytes(m.mac)
}

/// A 16-bit number in big-endian byte order.
pub open spec fn be16(n: nat) -> Seq<u8> {
    seq![(n / 256) as u8, (n % 256) as u8]
}

/// The wire encoding of a response: code, big-endian body length, body.
pub open spec fn encode(m: MessageView) -> Seq<u8> {
    seq![code_to_byte(m.code)] + be16(body_of(m).len()) + body_of(m)
}

/// A response whose fields agree with its code, as the device sends them.
pub open spec fn well_formed(m: MessageView) -> bool {
    &&& code_valid(m.code)
    &&& m.session_id.is_some() == has_session_id_spec(m.code)
    &&& (m.session_id matches Some(s) ==> s < MAX_SESSIONS)
    &&& m.mac.is_some() == has_rmac_spec(m.code)
    &&& (m.mac matches Some(t) ==> t.len() == MAC_SIZE)
    &&& body_of(m).len() <= 0xffff
}

/// The length that the header of a response declares.
pub open spec fn declared_len(b: Seq<u8>) -> nat {
    b[1] as nat * 256 + b[2] as nat
}

/// Number of session id bytes that follow the header for a code.
pub open spec fn sid_len(c: Code) -> int {
    if has_session_id_spec(c) {
        1
    } else {
        0
    }
}

/// Number of MAC bytes that close a response for a code.
pub open spec fn mac_len(c: Code) -> int {
    if has_rmac_spec(c) {
        MAC_SIZE as int
    } else {
        0
    }
}

/// The bytes are a whole, well-formed response.
pub open spec fn parses(b: Seq<u8>) -> bool {
    &&& b.len() >= 3
    &&& code_byte_valid(b[0])
    &&& declared_len(b) + 3 == b.len()
    &&& (has_session_id_spec(code_of_byte(b[0])) ==> b.len() >= 4 && b[3] < MAX_SESSIONS)
    &&& b.len() - 3 - sid_len(code_of_byte(b[0])) >= mac_len(code_of_byte(b[0]))
}

/// The response that bytes which parse stand for.
pub open spec fn decode(b: Seq<u8>) -> MessageView {
    let code = code_of_byte(b[0]);
    let start = 3 + sid_len(code);
    let end = b.len() - mac_len(code);
    MessageView {
        code,
        session_id: if has_session_id_spec(code) {
            Some(b[3])
        } else {
            None
        },
        data: b.subrange(start, end),
        mac: if has_rmac_spec(code) {
            Some(b.subrange(end, b.len() as int))
        } else {
            None
        },
    }
}

/// Decoding the encoding of a well-formed response gives that response back.
pub proof fn lemma_decode_encode(m: MessageView)
    requires
        well_formed(m),
    ensures
        parses(encode(m)),
        decode(encode(m)) == m,
{
    let b = encode(m);
    let n = body_of(m).len();
    assert(n / 256 < 256 && (n / 256) * 256 + n % 256 == n) by (nonlinear_arith)
        requires
            n <= 0xffff,
    ;
    assert(declared_len(b) == n);
    assert(code_byte_valid(b[0]) && code_of_byte(b[0]) == m.code);
    let d = decode(b);
    assert(d.data =~= m.data);
    if has_rmac_spec(m.code) {
        assert(d.mac.unwrap() =~= m.mac.unwrap());
    }
    assert(d == m);
}

/// Encoding the decoding of bytes that parse gives those bytes back.
pub proof fn lemma_encode_decode(b: Seq<u8>)
    requires
        parses(b),
    ensures
        well_formed(decode(b)),
        encode(decode(b)) =~= b,
{
    let m = decode(b);
    let n = declared_len(b);
    assert(body_of(m) =~= b.subrange(3, b.len() as int));
    assert((n / 256) as u8 == b[1] && (n % 256) as u8 == b[2]) by (nonlinear_arith)
        requires
            n == b[1] as nat * 256 + b[2] as nat,
            b[1] < 256,
            b[2] < 256,
    ;
}

/// The session-tier error that a device error response with `data`
/// reports: the device's kind when the first byte names one, otherwise an
/// unclassified response error.
pub open spec fn device_error_kind_of(data: Seq<u8>) -> SessionErrorKind {
    if data.len() > 0 && data[0] <= 12 {
        SessionErrorKind::DeviceError {
            kind: choose|k: DeviceErrorKind| device_error_code(k) == data[0],
        }
    } else {
        SessionErrorKind::ResponseError
    }
}

/// What a response to command `code` yields.
pub open spec fn result_of(m: MessageView, code: u8) -> Result<Seq<u8>, SessionErrorKind> {
    match m.code {
        Code::DeviceError => Err(device_error_kind_of(m.data)),
        Code::Success(c) => if c == code {
            Ok(m.data)
        } else {
            Err(SessionErrorKind::MismatchError)
        },
    }
}

impl Message {
    /// Parse a response into a Response struct
    pub fn parse(message: connector::Message) -> (r: Result<Message, SessionErrorKind>)
        ensures
            match r {
                Ok(m) => parses(message@) && m@ == decode(message@),
                Err(e) => !parses(message@) && e == SessionErrorKind::ProtocolError,
            },
    {
        let bytes = message.into_vec();
        let n = bytes.len();
        if n < 3 {
            return Err(SessionErrorKind::ProtocolError);
        }
        let code = match Code::from_u8(bytes[0]) {
            Ok(c) => c,
            Err(e) => return Err(e),
        };
        let length: usize = (bytes[1] as usize) * 256 + (bytes[2] as usize);
        if length != n - 3 {
            return Err(SessionErrorKind::ProtocolError);
        }
        let mut start: usize = 3;
        let session_id = if has_session_id(code) {
            if n < 4 || bytes[3] >= MAX_SESSIONS {
                return Err(SessionErrorKind::ProtocolError);
            }
            start = 4;
            Some(bytes[3])
        } else {
            None
        };
        let mut end: usize = n;
        let mac = if has_rmac(code) {
            if n - start < MAC_SIZE {
                return Err(SessionErrorKind::ProtocolError);
            }
            end = n - MAC_SIZE;
            Some(copy_range(bytes.as_slice(), end, n))
        } else {
            None
        };
        let data = copy_range(bytes.as_slice(), start, end);
        let m = Message { code, session_id, data, mac };
        assert(m@ =~= decode(bytes@));
        Ok(m)
    }

    /// Create a new response without an associated session
    pub fn new(code: Code, response_data: Vec<u8>) -> (r: Message)
        ensures
            r@ == (MessageView { code, session_id: None, data: response_data@, mac: None }),
    {
        Message { code, session_id: None, data: response_data, mac: None }
    }

    /// Create a new response message with a MAC
    pub fn new_with_mac(code: Code, session_id: u8, response_data: Vec<u8>, mac: Vec<u8>) -> (r:
        Message)
        ensures
            r@ == (MessageView {
                code,
                session_id: Some(session_id),
                data: response_data@,
                mac: Some(mac@),
            }),
    {
        Message { code, session_id: Some(session_id), data: response_data, mac: Some(mac) }
    }

    /// Create a successful response
    pub fn success(command_type: u8, response_data: Vec<u8>) -> (r: Message)
        ensures
            r@ == (MessageView {
                code: Code::Success(command_type),
                session_id: None,
                data: response_data@,
                mac: None,
            }),
    {
        Self::new(Code::Success(command_type), response_data)
    }

    /// A device error response carrying the given kind.
    pub fn from_device_error(kind: DeviceErrorKind) -> (r: Message)
        ensures
            r@ == (MessageView {
                code: Code::DeviceError,
                session_id: None,
                data: seq![device_error_code(kind)],
                mac: None,
            }),
    {
        let mut data: Vec<u8> = Vec::new();
        data.push(kind.to_u8());
        assert(data@ =~= seq![device_error_code(kind)]);
        Self::new(Code::DeviceError, data)
    }

    /// The session-tier error that this response reports, if it is an error:
    /// the device's kind when its first data byte names one, otherwise an
    /// unclassified response error.
    pub fn error_kind(&self) -> (r: Option<SessionErrorKind>)
        ensures
            self.code is Success ==> r.is_none(),
            self.code is DeviceError ==> r == Some(device_error_kind_of(self.data@)),
    {
        match self.code {
            Code::Success(_) => None,
            Code::DeviceError => {
                if self.data.len() > 0 {
                    match DeviceErrorKind::from_u8(self.data[0]) {
                        Some(kind) => {
                            proof {
                                lemma_device_error_code_injective();
                            }
                            Some(SessionErrorKind::DeviceError { kind })
                        },
                        None => Some(SessionErrorKind::ResponseError),
                    }
                } else {
                    Some(SessionErrorKind::ResponseError)
                }
            },
        }
    }

    /// The data of a success for command `code`; a device error gives its
    /// kind, a success for another command a `MismatchError`.
    pub fn into_result(self, code: u8) -> (r: Result<Vec<u8>, SessionErrorKind>)
        ensures
            result_of(self@, code) == match r {
                Ok(v) => Ok::<Seq<u8>, SessionErrorKind>(v@),
                Err(e) => Err::<Seq<u8>, SessionErrorKind>(e),
            },
    {
        if let Some(kind) = self.error_kind() {
            return Err(kind);
        }
        match self.code {
            Code::Success(c) => if c == code {
                Ok(self.data)
            } else {
                Err(SessionErrorKind::MismatchError)
            },
            Code::DeviceError => Err(SessionErrorKind::ResponseError),
        }
    }

    /// Check the device's reply to the authentication command.
    pub fn check_authenticate_reply(&self) -> (r: Result<(), SessionErrorKind>)
        ensures
            r == match self.code {
                Code::DeviceError => Err::<(), SessionErrorKind>(device_error_kind_of(self.data@)),
                Code::Success(c) => if c == AUTHENTICATE_SESSION {
                    Ok::<(), SessionErrorKind>(())
                } else {
                    Err::<(), SessionErrorKind>(SessionErrorKind::ProtocolError)
                },
            },
    {
        if let Some(kind) = self.error_kind() {
            return Err(kind);
        }
        match self.code {
            Code::Success(c) => if c == AUTHENTICATE_SESSION {
                Ok(())
            } else {
                Err(SessionErrorKind::ProtocolError)
            },
            Code::DeviceError => Err(SessionErrorKind::ResponseError),
        }
    }

    /// Did an error occur?
    pub fn is_err(&self) -> (r: bool)
        ensures
            r == !(self.code is Success),
    {
        match self.code {
            Code::Success(_) => false,
            _ => true,
        }
    }

    /// Get the command being responded to
    pub fn command(&self) -> (r: Option<u8>)
        ensures
            match self.code {
                Code::Success(cmd) => r == Some(cmd),
                _ => r.is_none(),
            },
    {
        match self.code {
            Code::Success(cmd) => Some(cmd),
            _ => None,
        }
    }

    /// Total length of the response
    pub fn len(&self) -> (r: usize)
        requires
            self.data@.len() + 1 + MAC_SIZE <= usize::MAX,
            self.mac matches Some(t) ==> t@.len() == MAC_SIZE,
        ensures
            r == body_of(self@).len(),
    {
        let mut result = self.data.len();
        if self.session_id.is_some() {
            result += 1;
        }
        if self.mac.is_some() {
            result += MAC_SIZE;
        }
        result
    }

    /// Serialize this response, consuming it and producing its bytes
    pub fn into_bytes(self) -> (r: Vec<u8>)
        requires
            code_valid(self.code),
            self.mac matches Some(t) ==> t@.len() == MAC_SIZE,
            body_of(self@).len() <= 0xffff,
        ensures
            r@ == encode(self@),
    {
        let ghost v = self@;
        let body_len = self.len();
        let mut result: Vec<u8> = Vec::new();
        result.push(self.code.to_u8());
        result.push((body_len / 256) as u8);
        result.push((body_len % 256) as u8);
        if let Some(session_id) = self.session_id {
            result.push(session_id);
        }
        let Message { code, session_id, data, mac } = self;
        let mut data = data;
        result.append(&mut data);
        if let Some(mac) = mac {
            let mut mac = mac;
            result.append(&mut mac);
        }
        assert(result@ =~= encode(v));
        result
    }
}

} // verus!
