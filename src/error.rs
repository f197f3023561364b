//! Error kinds of the device, the connection, the session and the client, and
//! the mappings between tiers.

use vstd::prelude::*;

verus! {

/// Error kinds reported by the device itself in an error response.
#[derive(Copy, Clone, Debug, PartialEq, Eq, Structural)]
pub enum DeviceErrorKind {
    /// Success
    Success,
    /// Unknown command
    InvalidCommand,
    /// Malformed command data
    InvalidData,
    /// Unknown or closed session
    InvalidSession,
    /// Authentication with the device failed
    AuthenticationFailed,
    /// No free session slot
    SessionsFull,
    /// Session failed
    SessionFailed,
    /// Storage failure
    StorageFailed,
    /// Wrong length
    WrongLength,
    /// Insufficient permissions
    InsufficientPermissions,
    /// Audit log is full
    LogFull,
    /// Object not found
    ObjectNotFound,
    /// Invalid object ID
    InvalidId,
}

/// The byte by which the device reports each error kind.
pub open spec fn device_error_code(k: DeviceErrorKind) -> u8 {
    match k {
        DeviceErrorKind::Success => 0,
        DeviceErrorKind::InvalidCommand => 1,
        DeviceErrorKind::InvalidData => 2,
        DeviceErrorKind::InvalidSession => 3,
        DeviceErrorKind::AuthenticationFailed => 4,
        DeviceErrorKind::SessionsFull => 5,
        DeviceErrorKind::SessionFailed => 6,
        DeviceErrorKind::StorageFailed => 7,
        DeviceErrorKind::WrongLength => 8,
        DeviceErrorKind::InsufficientPermissions => 9,
        DeviceErrorKind::LogFull => 10,
        DeviceErrorKind::ObjectNotFound => 11,
        DeviceErrorKind::InvalidId => 12,
    }
}

/// Distinct kinds have distinct bytes.
pub proof fn lemma_device_error_code_injective()
    ensures
        forall|a: DeviceErrorKind, b: DeviceErrorKind|
            #[trigger] device_error_code(a) == #[trigger] device_error_code(b) ==> a == b,
{
}

impl DeviceErrorKind {
    /// Decode the error byte of a device error response.
    pub fn from_u8(b: u8) -> (r: Option<DeviceErrorKind>)
        ensures
            match r {
                Some(k) => device_error_code(k) == b,
                None => b > 12,
            },
    {
        match b {
            0 => Some(DeviceErrorKind::Success),
            1 => Some(DeviceErrorKind::InvalidCommand),
            2 => Some(DeviceErrorKind::InvalidData),
            3 => Some(DeviceErrorKind::InvalidSession),
            4 => Some(DeviceErrorKind::AuthenticationFailed),
            5 => Some(DeviceErrorKind::SessionsFull),
            6 => Some(DeviceErrorKind::SessionFailed),
            7 => Some(DeviceErrorKind::StorageFailed),
            8 => Some(DeviceErrorKind::WrongLength),
            9 => Some(DeviceErrorKind::InsufficientPermissions),
            10 => Some(DeviceErrorKind::LogFull),
            11 => Some(DeviceErrorKind::ObjectNotFound),
            12 => Some(DeviceErrorKind::InvalidId),
            _ => None,
        }
    }

    /// The byte by which the device reports this error kind.
    pub fn to_u8(self) -> (r: u8)
        ensures
            r == device_error_code(self),
    {
        match self {
            DeviceErrorKind::Success => 0,
            DeviceErrorKind::InvalidCommand => 1,
            DeviceErrorKind::InvalidData => 2,
            DeviceErrorKind::InvalidSession => 3,
            DeviceErrorKind::AuthenticationFailed => 4,
            DeviceErrorKind::SessionsFull => 5,
            DeviceErrorKind::SessionFailed => 6,
            DeviceErrorKind::StorageFailed => 7,
            DeviceErrorKind::WrongLength => 8,
            DeviceErrorKind::InsufficientPermissions => 9,
            DeviceErrorKind::LogFull => 10,
            DeviceErrorKind::ObjectNotFound => 11,
            DeviceErrorKind::InvalidId => 12,
        }
    }
}

/// Kinds of failure of the transport that carries messages to the device.
#[derive(Copy, Clone, Debug, PartialEq, Eq, Structural)]
pub enum ConnectionErrorKind {
    /// Address provided was not valid
    AddrInvalid,
    /// Couldn't connect
    ConnectionFailed,
    /// Device is busy
    DeviceBusyError,
    /// Error making the request
    RequestError,
    /// Error reading the response
    ResponseError,
    /// USB failure
    UsbError,
}

/// Error kinds of the session tier.
#[derive(Copy, Clone, Debug, PartialEq, Eq, Structural)]
pub enum SessionErrorKind {
    /// Handshake cryptogram mismatch
    AuthenticationError,
    /// Use of a session after it was closed
    ClosedSessionError,
    /// The handshake could not start or complete
    CreateFailed,
    /// The device returned a structured error
    DeviceError {
        /// Device error kind
        kind: DeviceErrorKind,
    },
    /// Framing, MAC or length violation
    ProtocolError,
    /// The per-session command limit was reached
    CommandLimitExceeded,
    /// Internal consistency check failed
    MismatchError,
    /// Error response that cannot be further classified
    ResponseError,
    /// Signature or MAC verification failure
    VerifyFailed,
}

/// Session error kinds
#[allow(inconsistent_fields)]
#[derive(Copy, Clone, Debug, PartialEq, Eq, Structural)]
pub enum ClientErrorKind {
    /// Couldn't authenticate session
    AuthenticationError,
    /// Session is closed
    ClosedSessionError,
    /// Errors with the connection to the HSM
    ConnectionError {
        /// Connection error kind
        kind: ConnectionErrorKind,
    },
    /// Couldn't create session
    CreateFailed,
    /// Errors originating in the HSM device
    DeviceError {
        /// HSM error kind
        kind: DeviceErrorKind,
    },
    /// Protocol error occurred
    ProtocolError,
    /// Error response from HSM we can't further specify
    ResponseError,
}

/// The client-tier kind that a session-tier kind collapses into.
pub open spec fn client_kind_of(k: SessionErrorKind) -> ClientErrorKind {
    match k {
        SessionErrorKind::AuthenticationError => ClientErrorKind::AuthenticationError,
        SessionErrorKind::ClosedSessionError => ClientErrorKind::ClosedSessionError,
        SessionErrorKind::CreateFailed => ClientErrorKind::CreateFailed,
        SessionErrorKind::DeviceError { kind } => ClientErrorKind::DeviceError { kind },
        SessionErrorKind::ProtocolError
        | SessionErrorKind::CommandLimitExceeded
        | SessionErrorKind::MismatchError
        | SessionErrorKind::VerifyFailed => ClientErrorKind::ProtocolError,
        SessionErrorKind::ResponseError => ClientErrorKind::ResponseError,
    }
}

impl ClientErrorKind {
    /// Get the device error, if this is a device error
    pub fn device_error(self) -> (r: Option<DeviceErrorKind>)
        ensures
            match self {
                ClientErrorKind::DeviceError { kind } => r == Some(kind),
                _ => r.is_none(),
            },
    {
        match self {
            ClientErrorKind::DeviceError { kind } => Some(kind),
            _ => None,
        }
    }

    /// Collapse a session-tier error kind into the client tier.
    pub fn from_session(k: SessionErrorKind) -> (r: ClientErrorKind)
        ensures
            r == client_kind_of(k),
    {
        match k {
            SessionErrorKind::AuthenticationError => ClientErrorKind::AuthenticationError,
            SessionErrorKind::ClosedSessionError => ClientErrorKind::ClosedSessionError,
            SessionErrorKind::CreateFailed => ClientErrorKind::CreateFailed,
            SessionErrorKind::DeviceError { kind } => ClientErrorKind::DeviceError { kind },
            SessionErrorKind::ProtocolError
            | SessionErrorKind::CommandLimitExceeded
            | SessionErrorKind::MismatchError
            | SessionErrorKind::VerifyFailed => ClientErrorKind::ProtocolError,
            SessionErrorKind::ResponseError => ClientErrorKind::ResponseError,
        }
    }

    /// Wrap a transport failure into the client tier.
    pub fn from_connection(k: ConnectionErrorKind) -> (r: ClientErrorKind)
        ensures
            r == (ClientErrorKind::ConnectionError { kind: k }),
    {
        ClientErrorKind::ConnectionError { kind: k }
    }
}

/// A session-tier error: its kind and a description of its cause.
#[derive(Debug)]
pub struct SessionError {
    pub kind: SessionErrorKind,
    pub description: String,
}

/// A client-tier error: its kind and the description of its cause, kept
/// from the tier below.
#[derive(Debug)]
pub struct ClientError {
    pub kind: ClientErrorKind,
    pub description: String,
}

impl ClientError {
    /// Collapse a session-tier error into the client tier, keeping its
    /// description.
    pub fn from_session_error(err: SessionError) -> (r: ClientError)
        ensures
            r.kind == client_kind_of(err.kind),
            r.description@ == err.description@,
    {
        ClientError { kind: ClientErrorKind::from_session(err.kind), description: err.description }
    }

    /// Wrap a transport failure into the client tier, keeping its description.
    pub fn from_connection_error(kind: ConnectionErrorKind, description: String) -> (r:
        ClientError)
        ensures
            r.kind == (ClientErrorKind::ConnectionError { kind }),
            r.description@ == description@,
    {
        ClientError { kind: ClientErrorKind::from_connection(kind), description }
    }
}

} // verus!
