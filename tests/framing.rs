use yubihsm::command;
use yubihsm::connector;
use yubihsm::error::{DeviceErrorKind, SessionErrorKind};
use yubihsm::response::{self, Code};

fn session_response_bytes() -> Vec<u8> {
    // success for SessionMessage (0x05 | 0x80), length 12: id, 3 data bytes, 8-byte MAC
    vec![0x85, 0x00, 0x0c, 0x02, 0xaa, 0xbb, 0xcc, 1, 2, 3, 4, 5, 6, 7, 8]
}

#[test]
fn response_parse_session_message() {
    let m = response::Message::parse(connector::Message::from_vec(session_response_bytes()))
        .unwrap();
    assert_eq!(m.code, Code::Success(0x05));
    assert_eq!(m.session_id, Some(2));
    assert_eq!(m.data, vec![0xaa, 0xbb, 0xcc]);
    assert_eq!(m.mac, Some(vec![1, 2, 3, 4, 5, 6, 7, 8]));
    assert_eq!(m.len(), 12);
    assert!(!m.is_err());
    assert_eq!(m.command(), Some(0x05));
}

#[test]
fn response_round_trip_bytes() {
    let bytes = session_response_bytes();
    let m = response::Message::parse(connector::Message::from_vec(bytes.clone())).unwrap();
    assert_eq!(m.into_bytes(), bytes);
}

#[test]
fn response_round_trip_message_shapes() {
    let plain = response::Message::success(0x01, vec![9, 8, 7]);
    let bytes = plain.into_bytes();
    assert_eq!(bytes, vec![0x81, 0x00, 0x03, 9, 8, 7]);
    let back = response::Message::parse(connector::Message::from_vec(bytes)).unwrap();
    assert_eq!(back.code, Code::Success(0x01));
    assert_eq!(back.session_id, None);
    assert_eq!(back.mac, None);
    assert_eq!(back.data, vec![9, 8, 7]);

    let mut created = response::Message::new(Code::Success(0x03), vec![0x11; 16]);
    created.session_id = Some(5);
    let bytes = created.into_bytes();
    assert_eq!(&bytes[..4], &[0x83, 0x00, 0x11, 0x05]);
    let back = response::Message::parse(connector::Message::from_vec(bytes)).unwrap();
    assert_eq!(back.session_id, Some(5));
    assert_eq!(back.data, vec![0x11; 16]);
    assert_eq!(back.mac, None);

    let with_mac = response::Message::new_with_mac(Code::Success(0x05), 3, vec![], vec![0xee; 8]);
    let bytes = with_mac.into_bytes();
    assert_eq!(bytes.len(), 3 + 1 + 8);
    let back = response::Message::parse(connector::Message::from_vec(bytes)).unwrap();
    assert_eq!(back.session_id, Some(3));
    assert_eq!(back.mac, Some(vec![0xee; 8]));
}

#[test]
fn response_parse_rejects_bad_input() {
    let cases: Vec<Vec<u8>> = vec![
        vec![],
        vec![0x81, 0x00],
        vec![0x81, 0x00, 0x02, 0x01],
        vec![0x81, 0x00, 0x00, 0x01],
        vec![0x10, 0x00, 0x00],
        vec![0x80, 0x00, 0x00],
        vec![0x83, 0x00, 0x00],
        vec![0x83, 0x00, 0x01, 16],
        vec![0x85, 0x00, 0x08, 0x01, 1, 2, 3, 4, 5, 6, 7],
    ];
    for c in cases {
        let r = response::Message::parse(connector::Message::from_vec(c));
        assert_eq!(r.unwrap_err(), SessionErrorKind::ProtocolError);
    }
}

#[test]
fn response_device_error() {
    let m = response::Message::from_device_error(DeviceErrorKind::InvalidSession);
    assert!(m.is_err());
    assert_eq!(m.command(), None);
    assert_eq!(
        m.error_kind(),
        Some(SessionErrorKind::DeviceError { kind: DeviceErrorKind::InvalidSession })
    );
    let bytes = m.into_bytes();
    assert_eq!(bytes, vec![0x7f, 0x00, 0x01, 0x03]);
    let unknown = response::Message::new(Code::DeviceError, vec![200]);
    assert_eq!(unknown.error_kind(), Some(SessionErrorKind::ResponseError));
    let ok = response::Message::success(0x01, vec![]);
    assert_eq!(ok.error_kind(), None);
}

#[test]
fn response_code_bytes() {
    assert_eq!(Code::from_u8(0x7f), Ok(Code::DeviceError));
    assert_eq!(Code::from_u8(0xc2), Ok(Code::Success(0x42)));
    assert_eq!(Code::from_u8(0x42), Err(SessionErrorKind::ProtocolError));
    assert_eq!(Code::Success(0x42).to_u8(), 0xc2);
    assert!(response::has_session_id(Code::Success(0x03)));
    assert!(response::has_session_id(Code::Success(0x05)));
    assert!(!response::has_session_id(Code::Success(0x04)));
    assert!(response::has_rmac(Code::Success(0x05)));
    assert!(!response::has_rmac(Code::Success(0x03)));
    assert!(!response::has_rmac(Code::DeviceError));
}

#[test]
fn command_round_trip() {
    let cmd = command::Message::new_with_mac(0x05, 7, vec![1, 2, 3], vec![9; 8]);
    let bytes = cmd.into_bytes();
    assert_eq!(bytes, vec![0x05, 0x00, 0x0c, 0x07, 1, 2, 3, 9, 9, 9, 9, 9, 9, 9, 9]);
    let back = connector::Message::from_vec(bytes.clone()).parse().unwrap();
    assert_eq!(back.command_type, 0x05);
    assert_eq!(back.session_id, Some(7));
    assert_eq!(back.data, vec![1, 2, 3]);
    assert_eq!(back.mac, Some(vec![9; 8]));
    assert_eq!(back.into_bytes(), bytes);

    let plain = command::Message::create(0x01, vec![0xab]);
    let bytes = plain.into_bytes();
    assert_eq!(bytes, vec![0x01, 0x00, 0x01, 0xab]);
    let back = command::Message::parse(bytes).unwrap();
    assert_eq!(back.session_id, None);
    assert_eq!(back.mac, None);
}

#[test]
fn command_parse_rejects_bad_input() {
    assert!(command::Message::parse(vec![0x01, 0x00]).is_err());
    assert!(command::Message::parse(vec![0x00, 0x00, 0x00]).is_err());
    assert!(command::Message::parse(vec![0x01, 0x00, 0x05, 1]).is_err());
    assert!(command::Message::parse(vec![0x05, 0x00, 0x02, 1, 2]).is_err());
    assert!(command::Message::parse(vec![0x04, 0x00, 0x09, 20, 1, 2, 3, 4, 5, 6, 7, 8]).is_err());
}

#[test]
fn connector_message_bytes() {
    let m = connector::Message::from_vec(vec![1, 2, 3]);
    assert_eq!(m.as_bytes(), &[1, 2, 3]);
    assert_eq!(m.into_vec(), vec![1, 2, 3]);
}
