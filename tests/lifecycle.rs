use yubihsm::algorithm::{Algorithm, AlgorithmError};
use yubihsm::error::{ClientErrorKind, ConnectionErrorKind, DeviceErrorKind, SessionErrorKind};
use yubihsm::object::Label;
use yubihsm::session::{Session, SessionState};
use yubihsm::setup::{AuditOption, Profile, ProvisionStep, Role};
use yubihsm::wrap;

fn authenticated(limit: u32) -> Session {
    let mut s = Session::new(limit);
    s.open().unwrap();
    s.finish_handshake(Ok(4)).unwrap();
    s
}

#[test]
fn session_reaches_authenticated() {
    let mut s = Session::new(10);
    assert_eq!(s.state(), SessionState::Created);
    assert!(s.open().is_ok());
    assert_eq!(s.state(), SessionState::Authenticating);
    assert_eq!(s.open(), Err(SessionErrorKind::CreateFailed));
    assert!(s.finish_handshake(Ok(4)).is_ok());
    assert_eq!(s.state(), SessionState::Authenticated);
    assert_eq!(s.id(), Some(4));
    assert_eq!(s.counter(), 0);
}

#[test]
fn session_handshake_failure_closes() {
    let mut s = Session::new(10);
    s.open().unwrap();
    assert_eq!(
        s.finish_handshake(Err(SessionErrorKind::AuthenticationError)),
        Err(SessionErrorKind::AuthenticationError)
    );
    assert_eq!(s.state(), SessionState::Closed);
    assert_eq!(s.begin_send(), Err(SessionErrorKind::ClosedSessionError));
}

#[test]
fn session_counter_increments_once_per_send() {
    let mut s = authenticated(100);
    for i in 0..5u32 {
        assert_eq!(s.begin_send(), Ok(i));
        assert_eq!(s.finish_send(Ok(())), Ok(()));
        assert_eq!(s.counter(), i + 1);
    }
}

#[test]
fn session_closed_rejects_every_send() {
    let mut s = authenticated(100);
    s.close();
    s.close();
    for _ in 0..3 {
        assert_eq!(s.begin_send(), Err(SessionErrorKind::ClosedSessionError));
        assert_eq!(s.counter(), 0);
        assert_eq!(s.state(), SessionState::Closed);
    }
    assert_eq!(s.open(), Err(SessionErrorKind::ClosedSessionError));
}

#[test]
fn session_command_limit() {
    let mut s = authenticated(3);
    for i in 0..3u32 {
        assert_eq!(s.begin_send(), Ok(i));
    }
    assert_eq!(s.begin_send(), Err(SessionErrorKind::CommandLimitExceeded));
    assert_eq!(s.state(), SessionState::Closed);
    assert_eq!(s.begin_send(), Err(SessionErrorKind::ClosedSessionError));
}

#[test]
fn session_failures_that_close() {
    let mut s = authenticated(10);
    s.begin_send().unwrap();
    let device = SessionErrorKind::DeviceError { kind: DeviceErrorKind::ObjectNotFound };
    assert_eq!(s.finish_send(Err(device)), Err(device));
    assert_eq!(s.state(), SessionState::Authenticated);
    s.begin_send().unwrap();
    assert_eq!(
        s.finish_send(Err(SessionErrorKind::ProtocolError)),
        Err(SessionErrorKind::ProtocolError)
    );
    assert_eq!(s.state(), SessionState::Closed);

    let mut t = authenticated(10);
    t.begin_send().unwrap();
    let invalid = SessionErrorKind::DeviceError { kind: DeviceErrorKind::InvalidSession };
    assert_eq!(t.finish_send(Err(invalid)), Err(invalid));
    assert_eq!(t.state(), SessionState::Closed);
}

#[test]
fn send_before_authentication_fails() {
    let mut s = Session::new(10);
    assert_eq!(s.begin_send(), Err(SessionErrorKind::ProtocolError));
    assert_eq!(s.finish_send(Ok(())), Err(SessionErrorKind::ClosedSessionError));
}

#[test]
fn client_error_mapping() {
    assert_eq!(
        ClientErrorKind::from_session(SessionErrorKind::CommandLimitExceeded),
        ClientErrorKind::ProtocolError
    );
    assert_eq!(
        ClientErrorKind::from_session(SessionErrorKind::VerifyFailed),
        ClientErrorKind::ProtocolError
    );
    assert_eq!(
        ClientErrorKind::from_session(SessionErrorKind::MismatchError),
        ClientErrorKind::ProtocolError
    );
    assert_eq!(
        ClientErrorKind::from_session(SessionErrorKind::ClosedSessionError),
        ClientErrorKind::ClosedSessionError
    );
    let d = ClientErrorKind::from_session(SessionErrorKind::DeviceError {
        kind: DeviceErrorKind::LogFull,
    });
    assert_eq!(d.device_error(), Some(DeviceErrorKind::LogFull));
    assert_eq!(ClientErrorKind::ProtocolError.device_error(), None);
    assert_eq!(
        ClientErrorKind::from_connection(ConnectionErrorKind::UsbError),
        ClientErrorKind::ConnectionError { kind: ConnectionErrorKind::UsbError }
    );
    assert_eq!(DeviceErrorKind::from_u8(8), Some(DeviceErrorKind::WrongLength));
    assert_eq!(DeviceErrorKind::from_u8(13), None);
    assert_eq!(DeviceErrorKind::InvalidId.to_u8(), 12);
}

#[test]
fn opaque_algorithm_bytes() {
    assert_eq!(Algorithm::from_u8(0x1e), Ok(Algorithm::DATA));
    assert_eq!(Algorithm::from_u8(0x1f), Ok(Algorithm::X509_CERTIFICATE));
    assert_eq!(Algorithm::from_u8(0x20), Err(AlgorithmError::TagInvalid));
    assert_eq!(Algorithm::X509_CERTIFICATE.to_u8(), 0x1f);
}

#[test]
fn wrap_key_from_bytes_lengths() {
    let k = wrap::Key::from_bytes(7, &[3u8; 24]).unwrap();
    let cmd = k.create();
    assert_eq!(cmd.id, 7);
    assert_eq!(cmd.algorithm, wrap::Algorithm::AES192_CCM);
    assert_eq!(cmd.domains, 0xffff);
    assert_eq!(cmd.capabilities, 0);
    assert_eq!(cmd.data, vec![3u8; 24]);
    assert_eq!(cmd.label.0, vec![0u8; 40]);
    assert!(wrap::Key::from_bytes(1, &[0u8; 16]).is_ok());
    assert!(wrap::Key::from_bytes(1, &[0u8; 32]).is_ok());
    assert_eq!(
        wrap::Key::from_bytes(1, &[0u8; 20]).err(),
        Some(DeviceErrorKind::WrongLength)
    );
}

#[test]
fn wrap_key_builders() {
    let k = wrap::Key::from_bytes(2, &[1u8; 16])
        .unwrap()
        .label(Label::from_bytes(b"wrap").unwrap())
        .domains(0x0001)
        .capabilities(0x10)
        .delegated_capabilities(0x20);
    let cmd = k.create();
    assert_eq!(&cmd.label.0[..4], b"wrap");
    assert_eq!(cmd.domains, 1);
    assert_eq!(cmd.capabilities, 0x10);
    assert_eq!(cmd.delegated_capabilities, 0x20);
    assert_eq!(cmd.algorithm, wrap::Algorithm::AES128_CCM);
}

#[test]
fn wrap_key_random_and_wipe() {
    let mut k = wrap::Key::generate_random(9, wrap::Algorithm::AES256_CCM).unwrap();
    let cmd = k.create();
    assert_eq!(cmd.data.len(), 32);
    assert_eq!(cmd.algorithm, wrap::Algorithm::AES256_CCM);
    let other = wrap::Key::generate_random(9, wrap::Algorithm::AES256_CCM).unwrap();
    assert_ne!(other.create().data, cmd.data);
    k.wipe();
    assert!(k.create().data.is_empty());
}

#[test]
fn profile_provision_plan() {
    let role = Role {
        authentication_key_id: 2,
        authentication_key_label: Label::from_bytes(b"admin").unwrap(),
        domains: 1,
        capabilities: 0,
        delegated_capabilities: 0,
        password: b"password".to_vec(),
    };
    let key = wrap::Key::from_bytes(3, &[0u8; 16]).unwrap();
    let profile = Profile::default()
        .setup_auth_key_id(Some(1))
        .roles(vec![role])
        .wrap_keys(vec![key])
        .audit_option(AuditOption::On);
    assert_eq!(profile.setup_auth_key_id, Some(1));
    assert_eq!(
        profile.provision(),
        vec![
            ProvisionStep::CreateRole(0),
            ProvisionStep::PutWrapKey(0),
            ProvisionStep::SetForceAudit(AuditOption::On),
            ProvisionStep::StoreReport(0xffff),
        ]
    );
    let bare = Profile::default();
    assert_eq!(bare.provision(), vec![ProvisionStep::StoreReport(0xffff)]);
}
