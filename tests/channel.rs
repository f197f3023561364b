use yubihsm::command;
use yubihsm::connector;
use yubihsm::error::{ClientError, ClientErrorKind, ConnectionErrorKind, SessionError, SessionErrorKind};
use yubihsm::response::{self, Code};
use yubihsm::securechannel::{self, SecureChannel};
use yubihsm::session::{Session, SessionState};

const HOST_CHALLENGE: [u8; 8] = [0x01, 0x02, 0x03, 0x04, 0x05, 0x06, 0x07, 0x08];
const CARD_CHALLENGE: [u8; 8] = [0x11, 0x12, 0x13, 0x14, 0x15, 0x16, 0x17, 0x18];
const CARD_CRYPTOGRAM: [u8; 8] = [0xc8, 0xdf, 0xfa, 0xaa, 0xe1, 0x98, 0xe2, 0xff];
const HOST_CRYPTOGRAM: [u8; 8] = [0x44, 0x06, 0x7f, 0x43, 0x57, 0x3b, 0x77, 0xd9];

fn auth_key() -> Vec<u8> {
    (0x40u8..0x60).collect()
}

fn channel() -> SecureChannel {
    SecureChannel::new(2, &auth_key(), &HOST_CHALLENGE, &CARD_CHALLENGE).unwrap()
}

fn expected_auth_command() -> Vec<u8> {
    vec![
        0x04, 0x00, 0x11, 0x02, 0x44, 0x06, 0x7f, 0x43, 0x57, 0x3b, 0x77, 0xd9, 0x3f, 0x6c, 0xe3,
        0x9f, 0xc1, 0x44, 0xa8, 0xba,
    ]
}

fn expected_echo_command() -> Vec<u8> {
    vec![
        0x05, 0x00, 0x19, 0x02, 0x57, 0x01, 0x84, 0xdf, 0xae, 0x14, 0xcc, 0x00, 0x8b, 0x95, 0xfc,
        0x25, 0x53, 0xe9, 0xba, 0x4e, 0x66, 0x09, 0x13, 0x3d, 0x94, 0x46, 0xec, 0xe6,
    ]
}

fn device_echo_response() -> Vec<u8> {
    vec![
        0x85, 0x00, 0x19, 0x02, 0xe8, 0x84, 0x93, 0xac, 0xba, 0x45, 0x1c, 0xc3, 0x4e, 0xe5, 0xe6,
        0x8f, 0xf1, 0x03, 0x2d, 0xea, 0x21, 0xf6, 0xcb, 0x84, 0x57, 0x10, 0xac, 0xa9,
    ]
}

#[test]
fn session_keys_known_answer() {
    let ctx = securechannel::challenge_context(&HOST_CHALLENGE, &CARD_CHALLENGE);
    let keys = securechannel::derive_session_keys(&auth_key(), &ctx);
    assert_eq!(
        keys.enc_key,
        vec![0xd9, 0x96, 0x75, 0xd4, 0xa9, 0x5c, 0x58, 0xde, 0x62, 0x92, 0x25, 0x73, 0x0c, 0xdd, 0xb7, 0x58]
    );
    assert_eq!(
        keys.mac_key,
        vec![0x43, 0x69, 0x2d, 0x56, 0xb8, 0x56, 0x9f, 0xbd, 0x57, 0xc5, 0xa2, 0xfc, 0x57, 0x37, 0x66, 0x95]
    );
    assert_eq!(
        keys.rmac_key,
        vec![0xe8, 0x74, 0xf5, 0x2a, 0x55, 0x2c, 0x09, 0x6f, 0xd9, 0x37, 0x1a, 0x9d, 0x62, 0xf0, 0x7f, 0xcd]
    );
}

#[test]
fn cryptograms_known_answer() {
    let c = channel();
    assert_eq!(c.card_cryptogram(), CARD_CRYPTOGRAM.to_vec());
    assert_eq!(c.host_cryptogram(), HOST_CRYPTOGRAM.to_vec());
    assert!(c.verify_card_cryptogram(&CARD_CRYPTOGRAM).is_ok());
    let mut wrong = CARD_CRYPTOGRAM;
    wrong[7] ^= 1;
    assert_eq!(c.verify_card_cryptogram(&wrong), Err(SessionErrorKind::AuthenticationError));
}

#[test]
fn malformed_challenge_lengths() {
    let r = SecureChannel::new(2, &auth_key(), &HOST_CHALLENGE[..7], &CARD_CHALLENGE);
    assert_eq!(r.err(), Some(SessionErrorKind::ProtocolError));
    let r = SecureChannel::new(2, &auth_key(), &HOST_CHALLENGE, &[0u8; 9]);
    assert_eq!(r.err(), Some(SessionErrorKind::ProtocolError));
}

#[test]
fn end_to_end_session() {
    let mut session = Session::new(100);
    session.open().unwrap();
    let mut c = channel();
    c.verify_card_cryptogram(&CARD_CRYPTOGRAM).unwrap();
    let auth = c.authenticate_session();
    assert_eq!(auth.into_bytes(), expected_auth_command());
    session.finish_handshake(Ok(2)).unwrap();
    assert_eq!(session.state(), SessionState::Authenticated);

    assert_eq!(session.begin_send(), Ok(0));
    let cmd = c.encrypt_command(command::Message::create(0x01, vec![])).unwrap();
    assert_eq!(c.counter(), 1);
    assert_eq!(session.counter(), 1);
    assert_eq!(cmd.into_bytes(), expected_echo_command());

    let encrypted =
        response::Message::parse(connector::Message::from_vec(device_echo_response())).unwrap();
    let plain = c.decrypt_response(encrypted).unwrap();
    assert_eq!(plain.code, Code::Success(0x01));
    assert!(plain.data.is_empty());
    assert_eq!(session.finish_send(Ok(())), Ok(()));
    assert_eq!(c.counter(), 1);
}

#[test]
fn tampered_response_rejected() {
    let mut c = channel();
    c.authenticate_session();
    c.encrypt_command(command::Message::create(0x01, vec![])).unwrap();
    let good = device_echo_response();
    for i in 4..good.len() {
        let mut bytes = good.clone();
        bytes[i] ^= 0x01;
        let encrypted =
            response::Message::parse(connector::Message::from_vec(bytes)).unwrap();
        assert_eq!(c.decrypt_response(encrypted).err(), Some(SessionErrorKind::ProtocolError));
    }
    let mut other_session = good.clone();
    other_session[3] = 3;
    let encrypted = response::Message::parse(connector::Message::from_vec(other_session)).unwrap();
    assert_eq!(c.decrypt_response(encrypted).err(), Some(SessionErrorKind::MismatchError));
}

#[test]
fn commands_never_share_an_iv() {
    let mut c = channel();
    c.authenticate_session();
    let a = c.encrypt_command(command::Message::create(0x01, vec![1, 2, 3])).unwrap();
    let b = c.encrypt_command(command::Message::create(0x01, vec![1, 2, 3])).unwrap();
    assert_eq!(c.counter(), 2);
    assert_ne!(a.data, b.data);
    assert_ne!(a.mac, b.mac);
}

#[test]
fn padding_round_trip() {
    let p = securechannel::pad_message(&[1, 2, 3]);
    assert_eq!(p.len(), 16);
    assert_eq!(&p[..4], &[1, 2, 3, 0x80]);
    assert_eq!(securechannel::unpad_message(&p), Some(vec![1, 2, 3]));
    let full = securechannel::pad_message(&[7u8; 16]);
    assert_eq!(full.len(), 32);
    assert_eq!(securechannel::unpad_message(&full), Some(vec![7u8; 16]));
    assert_eq!(securechannel::unpad_message(&[0u8; 16]), None);
    assert!(securechannel::ct_eq(&[1, 2], &[1, 2]));
    assert!(!securechannel::ct_eq(&[1, 2], &[1, 3]));
    assert!(!securechannel::ct_eq(&[1, 2], &[1]));
}

#[test]
fn oversized_command_rejected() {
    let mut c = channel();
    let r = c.encrypt_command(command::Message::create(0x01, vec![0u8; 0xffff]));
    assert_eq!(r.err(), Some(SessionErrorKind::ProtocolError));
    assert_eq!(c.counter(), 0);
}

fn parse_reply(bytes: Vec<u8>) -> response::Message {
    response::Message::parse(connector::Message::from_vec(bytes)).unwrap()
}

fn open_against_simulator(hsm: &mut yubihsm::mockhsm::MockHsm) -> SecureChannel {
    let mut payload = vec![0x00, 0x01];
    payload.extend_from_slice(&HOST_CHALLENGE);
    let reply = parse_reply(hsm.handle(command::Message::create(0x03, payload).into_bytes()));
    assert_eq!(reply.code, Code::Success(0x03));
    let sid = reply.session_id.unwrap();
    let (card_challenge, cryptogram) = reply.data.split_at(8);
    assert_eq!(card_challenge, &CARD_CHALLENGE);
    let mut c = SecureChannel::new(sid, &auth_key(), &HOST_CHALLENGE, card_challenge).unwrap();
    c.verify_card_cryptogram(cryptogram).unwrap();
    assert_eq!(c.host_cryptogram(), HOST_CRYPTOGRAM.to_vec());
    let reply = parse_reply(hsm.handle(c.authenticate_session().into_bytes()));
    assert_eq!(reply.code, Code::Success(0x04));
    assert!(hsm.is_authenticated());
    c
}

fn simulator() -> yubihsm::mockhsm::MockHsm {
    yubihsm::mockhsm::MockHsm::new(1, auth_key(), CARD_CHALLENGE.to_vec())
}

#[test]
fn simulator_counts_each_command_once() {
    let mut hsm = simulator();
    let mut c = open_against_simulator(&mut hsm);
    let mut session = Session::new(10);
    session.open().unwrap();
    session.finish_handshake(Ok(0)).unwrap();
    assert_eq!(hsm.session_counter(), Some(0));
    for n in 1..=5u8 {
        session.begin_send().unwrap();
        let cmd = c.encrypt_command(command::Message::create(0x01, vec![n; n as usize])).unwrap();
        let reply = parse_reply(hsm.handle(cmd.into_bytes()));
        let plain = c.decrypt_response(reply).unwrap();
        session.finish_send(Ok(())).unwrap();
        assert_eq!(plain.code, Code::Success(0x01));
        assert_eq!(plain.data, vec![n; n as usize]);
        assert_eq!(hsm.session_counter(), Some(n as u32));
        assert_eq!(c.counter(), n as u32);
        assert_eq!(session.counter(), n as u32);
    }
}

#[test]
fn simulator_rejects_tampered_commands() {
    let mut hsm = simulator();
    let mut c = open_against_simulator(&mut hsm);
    let cmd = c.encrypt_command(command::Message::create(0x01, vec![1, 2, 3])).unwrap();
    let good = cmd.into_bytes();
    for i in 4..good.len() {
        let mut bytes = good.clone();
        bytes[i] ^= 0x80;
        let reply = parse_reply(hsm.handle(bytes));
        assert_eq!(
            reply.error_kind(),
            Some(SessionErrorKind::DeviceError {
                kind: yubihsm::error::DeviceErrorKind::AuthenticationFailed
            })
        );
        assert_eq!(hsm.session_counter(), Some(0));
    }
    let reply = parse_reply(hsm.handle(good));
    let plain = c.decrypt_response(reply).unwrap();
    assert_eq!(plain.data, vec![1, 2, 3]);
    assert_eq!(hsm.session_counter(), Some(1));
}

#[test]
fn simulator_refuses_unknown_key_and_garbage() {
    let mut hsm = simulator();
    let mut payload = vec![0x00, 0x02];
    payload.extend_from_slice(&HOST_CHALLENGE);
    let reply = parse_reply(hsm.handle(command::Message::create(0x03, payload).into_bytes()));
    assert_eq!(
        reply.error_kind(),
        Some(SessionErrorKind::DeviceError {
            kind: yubihsm::error::DeviceErrorKind::ObjectNotFound
        })
    );
    let reply = parse_reply(hsm.handle(vec![0x01, 0x00]));
    assert_eq!(
        reply.error_kind(),
        Some(SessionErrorKind::DeviceError {
            kind: yubihsm::error::DeviceErrorKind::InvalidCommand
        })
    );
    assert_eq!(hsm.session_counter(), None);
}

#[test]
fn create_session_reply_opens_channel() {
    let mut hsm = simulator();
    let req = yubihsm::client::create_session_command(1, &HOST_CHALLENGE);
    assert_eq!(req.data[..2], [0x00, 0x01]);
    let reply = parse_reply(hsm.handle(req.into_bytes()));
    let c = SecureChannel::from_create_session_reply(&reply, &auth_key(), &HOST_CHALLENGE).unwrap();
    assert_eq!(c.host_cryptogram(), HOST_CRYPTOGRAM.to_vec());

    let mut bad = parse_reply(hsm.handle(
        yubihsm::client::create_session_command(1, &HOST_CHALLENGE).into_bytes(),
    ));
    bad.data[15] ^= 1;
    assert_eq!(
        SecureChannel::from_create_session_reply(&bad, &auth_key(), &HOST_CHALLENGE).err(),
        Some(SessionErrorKind::AuthenticationError)
    );
    bad.data.pop();
    assert_eq!(
        SecureChannel::from_create_session_reply(&bad, &auth_key(), &HOST_CHALLENGE).err(),
        Some(SessionErrorKind::ProtocolError)
    );
    let device = response::Message::from_device_error(yubihsm::error::DeviceErrorKind::SessionsFull);
    assert_eq!(
        SecureChannel::from_create_session_reply(&device, &auth_key(), &HOST_CHALLENGE).err(),
        Some(SessionErrorKind::DeviceError { kind: yubihsm::error::DeviceErrorKind::SessionsFull })
    );
}

#[test]
fn reply_results() {
    assert_eq!(response::Message::success(0x01, vec![5]).into_result(0x01), Ok(vec![5]));
    assert_eq!(
        response::Message::success(0x02, vec![5]).into_result(0x01),
        Err(SessionErrorKind::MismatchError)
    );
    assert_eq!(
        response::Message::from_device_error(yubihsm::error::DeviceErrorKind::LogFull)
            .into_result(0x01),
        Err(SessionErrorKind::DeviceError { kind: yubihsm::error::DeviceErrorKind::LogFull })
    );
    assert_eq!(response::Message::success(0x04, vec![]).check_authenticate_reply(), Ok(()));
    assert_eq!(
        response::Message::success(0x01, vec![]).check_authenticate_reply(),
        Err(SessionErrorKind::ProtocolError)
    );
    assert_eq!(Code::from_u8(0xf0), Err(SessionErrorKind::ProtocolError));
}

#[test]
fn session_and_channel_advance_together() {
    let mut hsm = simulator();
    let mut c = open_against_simulator(&mut hsm);
    let mut session = Session::new(2);
    session.open().unwrap();
    session.finish_handshake(Ok(0)).unwrap();
    for n in 1..=2u32 {
        let cmd = yubihsm::client::send_command(
            &mut session,
            &mut c,
            command::Message::create(0x01, vec![7]),
        )
        .unwrap();
        assert_eq!(session.counter(), n);
        assert_eq!(c.counter(), n);
        let reply = parse_reply(hsm.handle(cmd.into_bytes()));
        assert_eq!(hsm.session_counter(), Some(n));
        let data = yubihsm::client::receive_reply(&mut session, &c, reply, 0x01).unwrap();
        assert_eq!(data, vec![7]);
    }
    let r = yubihsm::client::send_command(&mut session, &mut c, command::Message::create(0x01, vec![]));
    assert_eq!(r.err(), Some(SessionErrorKind::CommandLimitExceeded));
    assert_eq!(session.state(), SessionState::Closed);
    assert_eq!(c.counter(), 2);
}

#[test]
fn tampered_reply_closes_session() {
    let mut hsm = simulator();
    let mut c = open_against_simulator(&mut hsm);
    let mut session = Session::new(10);
    session.open().unwrap();
    session.finish_handshake(Ok(0)).unwrap();
    let cmd = yubihsm::client::send_command(&mut session, &mut c, command::Message::create(0x01, vec![]))
        .unwrap();
    let mut bytes = hsm.handle(cmd.into_bytes());
    let last = bytes.len() - 1;
    bytes[last] ^= 1;
    let r = yubihsm::client::receive_reply(&mut session, &c, parse_reply(bytes), 0x01);
    assert_eq!(r, Err(SessionErrorKind::ProtocolError));
    assert_eq!(session.state(), SessionState::Closed);
    c.wipe();
}

#[test]
fn client_errors_keep_descriptions() {
    let e = ClientError::from_session_error(SessionError {
        kind: SessionErrorKind::VerifyFailed,
        description: "bad signature".to_string(),
    });
    assert_eq!(e.kind, ClientErrorKind::ProtocolError);
    assert_eq!(e.description, "bad signature");
    let e = ClientError::from_connection_error(ConnectionErrorKind::UsbError, "unplugged".to_string());
    assert_eq!(e.kind, ClientErrorKind::ConnectionError { kind: ConnectionErrorKind::UsbError });
    assert_eq!(e.description, "unplugged");
}
