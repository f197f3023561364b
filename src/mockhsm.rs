//! Simulation of the device side of the protocol, for testing: it answers
//! session creation, authentication and encrypted echo commands over the
//! same wire format and the same secure channel.

use vstd::prelude::*;
use crate::command;
use crate::error::DeviceErrorKind;
use crate::response::{self, MAC_SIZE, encode, MessageView, Code, AUTHENTICATE_SESSION, CREATE_SESSION, SESSION_MESSAGE};
use crate::command::{command_parses, decode_command, CommandView};
use crate::error::device_error_code;
use crate::securechannel::{
    aes128_cbc_encrypt, card_cryptogram_spec, channel_wf, cmac_aes128, command_authentic,
    command_decrypted, ct_eq, expected_rmac, host_cryptogram_spec, mac_input, pad, response_icv,
    session_keys_spec, SecureChannel, SecureChannelView, AUTH_KEY_SIZE, CHALLENGE_SIZE,
};
use crate::object::zeros;
use crate::connector::copy_range;

verus! {

/// Command code of the echo command
pub const ECHO: u8 = 0x01;

/// Longest echo payload that the simulator answers
pub const MAX_ECHO_LEN: usize = 0xfe00;

/// Id of the one session that the simulator serves
pub const MOCK_SESSION_ID: u8 = 0;

/// Abstract value of the simulator.
pub struct MockHsmView {
    pub auth_key_id: u16,
    pub auth_key: Seq<u8>,
    pub card_challenge: Seq<u8>,
    pub channel: Option<SecureChannelView>,
    pub authenticated: bool,
}

/// Software simulation of the device, serving one session with one
/// authentication key and a fixed device challenge.
pub struct MockHsm {
    auth_key_id: u16,
    auth_key: Vec<u8>,
    card_challenge: Vec<u8>,
    channel: Option<SecureChannel>,
    authenticated: bool,
}

impl View for MockHsm {
    type V = MockHsmView;

    closed spec fn view(&self) -> MockHsmView {
        MockHsmView {
            auth_key_id: self.auth_key_id,
            auth_key: self.auth_key@,
            card_challenge: self.card_challenge@,
            channel: match self.channel {
                Some(c) => Some(c@),
                None => None,
            },
            authenticated: self.authenticated,
        }
    }
}

/// Key sizes hold, and an open channel is well formed.
pub open spec fn mock_wf(m: MockHsmView) -> bool {
    &&& m.auth_key.len() == AUTH_KEY_SIZE
    &&& m.card_challenge.len() == CHALLENGE_SIZE
    &&& (m.channel matches Some(c) ==> channel_wf(c))
    &&& (m.authenticated ==> m.channel is Some)
}

/// The bytes of a device error response of the given kind.
pub open spec fn error_reply(kind: DeviceErrorKind) -> Seq<u8> {
    encode(
        MessageView {
            code: Code::DeviceError,
            session_id: None,
            data: seq![crate::error::device_error_code(kind)],
            mac: None,
        },
    )
}

/// The simulator with the channel and authentication flag replaced.
pub open spec fn with_channel(m: MockHsmView, c: SecureChannelView, auth: bool) -> MockHsmView {
    MockHsmView { channel: Some(c), authenticated: auth, ..m }
}

/// The channel that a session-creation request with `host` opens.
pub open spec fn created_channel(m: MockHsmView, host: Seq<u8>) -> SecureChannelView {
    let context = host + m.card_challenge;
    let keys = session_keys_spec(m.auth_key, context);
    SecureChannelView {
        id: MOCK_SESSION_ID,
        counter: 0,
        context,
        enc_key: keys.0,
        mac_key: keys.1,
        rmac_key: keys.2,
        mac_chain: zeros(16),
    }
}

/// The reply to a successful session creation.
pub open spec fn create_reply(m: MockHsmView, c: SecureChannelView) -> Seq<u8> {
    encode(
        MessageView {
            code: Code::Success(CREATE_SESSION),
            session_id: Some(MOCK_SESSION_ID),
            data: m.card_challenge + card_cryptogram_spec(c),
            mac: None,
        },
    )
}

/// The channel after it accepted a MAC over `data` sent with `code`.
pub open spec fn chained(c: SecureChannelView, code: u8, data: Seq<u8>) -> SecureChannelView {
    SecureChannelView {
        mac_chain: cmac_aes128(c.mac_key, mac_input(c.mac_chain, code, c.id, data)),
        ..c
    }
}

/// The plain answer to a decrypted inner command: its payload echoed back,
/// or an unknown-command error.
pub open spec fn inner_answer(inner: CommandView) -> MessageView {
    if inner.command_type == ECHO && inner.data.len() <= MAX_ECHO_LEN {
        MessageView { code: Code::Success(ECHO), session_id: None, data: inner.data, mac: None }
    } else {
        MessageView {
            code: Code::DeviceError,
            session_id: None,
            data: seq![device_error_code(DeviceErrorKind::InvalidCommand)],
            mac: None,
        }
    }
}

/// The encrypted envelope that carries `answer` on channel `c`.
pub open spec fn encrypted_reply(c: SecureChannelView, answer: MessageView) -> MessageView {
    let ct = aes128_cbc_encrypt(c.enc_key, response_icv(c.enc_key, c.counter), pad(encode(answer)));
    MessageView {
        code: Code::Success(SESSION_MESSAGE),
        session_id: Some(c.id),
        data: ct,
        mac: Some(expected_rmac(c, ct)),
    }
}

/// The reply to an authentic session message, once the channel is `c`.
pub open spec fn session_reply(c: SecureChannelView, data: Seq<u8>) -> Seq<u8> {
    match command_decrypted(c, data) {
        Some(p) => if command_parses(p) {
            encode(encrypted_reply(c, inner_answer(decode_command(p))))
        } else {
            error_reply(DeviceErrorKind::InvalidData)
        },
        None => error_reply(DeviceErrorKind::InvalidData),
    }
}

/// What the simulator does with one parsed request: its next state and the
/// bytes of its reply.
pub open spec fn step(m: MockHsmView, cmd: CommandView) -> (MockHsmView, Seq<u8>) {
    if cmd.command_type == CREATE_SESSION {
        if cmd.data.len() != 2 + CHALLENGE_SIZE {
            (m, error_reply(DeviceErrorKind::WrongLength))
        } else if cmd.data[0] as int * 256 + cmd.data[1] as int != m.auth_key_id as int {
            (m, error_reply(DeviceErrorKind::ObjectNotFound))
        } else {
            let c = created_channel(m, cmd.data.subrange(2, 10));
            (with_channel(m, c, false), create_reply(m, c))
        }
    } else if cmd.command_type == AUTHENTICATE_SESSION {
        if m.authenticated || m.channel is None {
            (m, error_reply(DeviceErrorKind::InvalidSession))
        } else {
            let c0 = m.channel.unwrap();
            if command_authentic(c0, cmd) && cmd.data == host_cryptogram_spec(c0) {
                (
                    with_channel(m, chained(c0, AUTHENTICATE_SESSION, cmd.data), true),
                    encode(
                        MessageView {
                            code: Code::Success(AUTHENTICATE_SESSION),
                            session_id: None,
                            data: Seq::empty(),
                            mac: None,
                        },
                    ),
                )
            } else {
                (m, error_reply(DeviceErrorKind::AuthenticationFailed))
            }
        }
    } else if cmd.command_type == SESSION_MESSAGE {
        if !m.authenticated || m.channel is None {
            (m, error_reply(DeviceErrorKind::InvalidSession))
        } else {
            let c0 = m.channel.unwrap();
            if command_authentic(c0, cmd) && c0.counter < u32::MAX {
                let c1 = SecureChannelView {
                    counter: (c0.counter + 1) as u32,
                    ..chained(c0, SESSION_MESSAGE, cmd.data)
                };
                (with_channel(m, c1, true), session_reply(c1, cmd.data))
            } else {
                (m, error_reply(DeviceErrorKind::AuthenticationFailed))
            }
        }
    } else {
        (m, error_reply(DeviceErrorKind::InvalidCommand))
    }
}

fn error_bytes(kind: DeviceErrorKind) -> (r: Vec<u8>)
    ensures
        r@ == error_reply(kind),
{
    response::Message::from_device_error(kind).into_bytes()
}

impl MockHsm {
    /// A simulator that accepts the given authentication key and answers
    /// every session creation with the given device challenge.
    pub fn new(auth_key_id: u16, auth_key: Vec<u8>, card_challenge: Vec<u8>) -> (r: MockHsm)
        requires
            auth_key@.len() == AUTH_KEY_SIZE,
            card_challenge@.len() == CHALLENGE_SIZE,
        ensures
            mock_wf(r@),
            r@ == (MockHsmView {
                auth_key_id,
                auth_key: auth_key@,
                card_challenge: card_challenge@,
                channel: None,
                authenticated: false,
            }),
    {
        MockHsm { auth_key_id, auth_key, card_challenge, channel: None, authenticated: false }
    }

    /// The counter of the open session, as the device sees it.
    pub fn session_counter(&self) -> (r: Option<u32>)
        ensures
            r == match self@.channel {
                Some(c) => Some(c.counter),
                None => None::<u32>,
            },
    {
        match &self.channel {
            Some(c) => Some(c.counter()),
            None => None,
        }
    }

    /// Has the host authenticated the open session?
    pub fn is_authenticated(&self) -> (r: bool)
        ensures
            r == self@.authenticated,
    {
        self.authenticated
    }

    fn create_session(&mut self, cmd: command::Message) -> (r: Vec<u8>)
        requires
            mock_wf(old(self)@),
            cmd.command_type == CREATE_SESSION,
        ensures
            mock_wf(final(self)@),
            (final(self)@, r@) == step(old(self)@, cmd@),
    {
        if cmd.data.len() != 2 + CHALLENGE_SIZE {
            return error_bytes(DeviceErrorKind::WrongLength);
        }
        let key_id: u16 = (cmd.data[0] as u16) * 256 + cmd.data[1] as u16;
        if key_id != self.auth_key_id {
            return error_bytes(DeviceErrorKind::ObjectNotFound);
        }
        let host_challenge = copy_range(cmd.data.as_slice(), 2, 2 + CHALLENGE_SIZE);
        let channel = match SecureChannel::new(
            MOCK_SESSION_ID,
            self.auth_key.as_slice(),
            host_challenge.as_slice(),
            self.card_challenge.as_slice(),
        ) {
            Ok(c) => c,
            Err(_) => return error_bytes(DeviceErrorKind::InvalidData),
        };
        let mut data = copy_range(self.card_challenge.as_slice(), 0, CHALLENGE_SIZE);
        assert(data@ =~= self.card_challenge@);
        let mut cryptogram = channel.card_cryptogram();
        data.append(&mut cryptogram);
        let mut reply = response::Message::success(CREATE_SESSION, data);
        reply.session_id = Some(MOCK_SESSION_ID);
        self.channel = Some(channel);
        self.authenticated = false;
        reply.into_bytes()
    }

    fn authenticate(&mut self, cmd: command::Message) -> (r: Vec<u8>)
        requires
            mock_wf(old(self)@),
            cmd.command_type == AUTHENTICATE_SESSION,
        ensures
            mock_wf(final(self)@),
            (final(self)@, r@) == step(old(self)@, cmd@),
    {
        if self.authenticated {
            return error_bytes(DeviceErrorKind::InvalidSession);
        }
        let mut channel = match self.channel.take() {
            Some(c) => c,
            None => return error_bytes(DeviceErrorKind::InvalidSession),
        };
        let expected = channel.host_cryptogram();
        let ok = if ct_eq(expected.as_slice(), cmd.data.as_slice()) {
            match channel.verify_command_mac(&cmd) {
                Ok(()) => true,
                Err(_) => false,
            }
        } else {
            false
        };
        self.channel = Some(channel);
        if !ok {
            return error_bytes(DeviceErrorKind::AuthenticationFailed);
        }
        self.authenticated = true;
        response::Message::success(AUTHENTICATE_SESSION, Vec::new()).into_bytes()
    }

    fn session_message(&mut self, cmd: command::Message) -> (r: Vec<u8>)
        requires
            mock_wf(old(self)@),
            old(self)@.authenticated,
            cmd.command_type == SESSION_MESSAGE,
        ensures
            mock_wf(final(self)@),
            (final(self)@, r@) == step(old(self)@, cmd@),
    {
        let mut channel = match self.channel.take() {
            Some(c) => c,
            None => return error_bytes(DeviceErrorKind::InvalidSession),
        };
        let before = channel.counter();
        let decrypted = channel.decrypt_command(cmd);
        let authentic = channel.counter() != before;
        let reply = match decrypted {
            Ok(inner) => {
                let answer = if inner.command_type == ECHO && inner.data.len() <= MAX_ECHO_LEN {
                    response::Message::success(ECHO, inner.data)
                } else {
                    response::Message::from_device_error(DeviceErrorKind::InvalidCommand)
                };
                match channel.encrypt_response(answer) {
                    Ok(m) => m.into_bytes(),
                    Err(_) => error_bytes(DeviceErrorKind::InvalidData),
                }
            },
            Err(_) => if authentic {
                error_bytes(DeviceErrorKind::InvalidData)
            } else {
                error_bytes(DeviceErrorKind::AuthenticationFailed)
            },
        };
        self.channel = Some(channel);
        reply
    }

    /// Answer one request from the host with the bytes of its reply.
    pub fn handle(&mut self, request: Vec<u8>) -> (r: Vec<u8>)
        requires
            mock_wf(old(self)@),
        ensures
            mock_wf(final(self)@),
            !command_parses(request@) ==> final(self)@ == old(self)@ && r@ == error_reply(
                DeviceErrorKind::InvalidCommand,
            ),
            command_parses(request@) ==> (final(self)@, r@) == step(
                old(self)@,
                decode_command(request@),
            ),
    {
        let cmd = match command::Message::parse(request) {
            Ok(c) => c,
            Err(_) => return error_bytes(DeviceErrorKind::InvalidCommand),
        };
        if cmd.command_type == CREATE_SESSION {
            self.create_session(cmd)
        } else if cmd.command_type == AUTHENTICATE_SESSION {
            self.authenticate(cmd)
        } else if cmd.command_type == SESSION_MESSAGE {
            if !self.authenticated || self.channel.is_none() {
                return error_bytes(DeviceErrorKind::InvalidSession);
            }
            self.session_message(cmd)
        } else {
            error_bytes(DeviceErrorKind::InvalidCommand)
        }
    }
}

/// A device whose channel equals the host's accepts the next command that
/// the host encrypts (ciphertext `ct`, MAC from the host's new chain): the
/// device's counter rises by exactly one and its MAC chain becomes the
/// host's, so both sides stay in step command after command.
pub proof fn lemma_device_follows_host(m: MockHsmView, c: SecureChannelView, ct: Seq<u8>)
    requires
        mock_wf(m),
        m.authenticated,
        m.channel == Some(c),
        c.counter < u32::MAX,
        ct.len() + 1 + MAC_SIZE <= 0xffff,
    ensures
        ({
            let chain = cmac_aes128(c.mac_key, mac_input(c.mac_chain, SESSION_MESSAGE, c.id, ct));
            let cmd = CommandView {
                command_type: SESSION_MESSAGE,
                session_id: Some(c.id),
                data: ct,
                mac: Some(chain.subrange(0, MAC_SIZE as int)),
            };
            step(m, cmd).0.channel == Some(
                SecureChannelView { counter: (c.counter + 1) as u32, mac_chain: chain, ..c },
            ) && step(m, cmd).0.authenticated
        }),
{
}

} // verus!
