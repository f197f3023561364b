use yubihsm::error::ClientErrorKind;
use yubihsm::filter::Filter;
use yubihsm::object::{Label, ObjectType};

fn encode(f: &Filter) -> Vec<u8> {
    let mut out = Vec::new();
    f.serialize(&mut out);
    out
}

#[test]
fn filter_capabilities_encoding() {
    let bytes = encode(&Filter::Capabilities(0x1));
    assert_eq!(bytes, vec![0x04, 0, 0, 0, 0, 0, 0, 0, 0x01]);
}

#[test]
fn filter_tags() {
    assert_eq!(Filter::Id(1).tag(), 0x01);
    assert_eq!(Filter::Type(ObjectType::Opaque).tag(), 0x02);
    assert_eq!(Filter::Domains(1).tag(), 0x03);
    assert_eq!(Filter::Capabilities(1).tag(), 0x04);
    assert_eq!(Filter::Algorithm(1).tag(), 0x05);
    assert_eq!(Filter::Label(Label::from_bytes(b"x").unwrap()).tag(), 0x06);
}

#[test]
fn filter_round_trip_each_kind() {
    let filters = vec![
        Filter::Id(0x1234),
        Filter::Type(ObjectType::WrapKey),
        Filter::Domains(0x8001),
        Filter::Capabilities(0x0000_4102_0304_0506),
        Filter::Algorithm(0x2a),
        Filter::Label(Label::from_bytes(b"backup key").unwrap()),
    ];
    for f in filters {
        let mut bytes = encode(&f);
        let n = bytes.len();
        bytes.extend_from_slice(&[0xde, 0xad]);
        let (back, used) = Filter::deserialize(&bytes).unwrap();
        assert_eq!(used, n);
        assert_eq!(encode(&back), bytes[..n].to_vec());
        match (&f, &back) {
            (Filter::Id(a), Filter::Id(b)) => assert_eq!(a, b),
            (Filter::Type(a), Filter::Type(b)) => assert_eq!(a, b),
            (Filter::Domains(a), Filter::Domains(b)) => assert_eq!(a, b),
            (Filter::Capabilities(a), Filter::Capabilities(b)) => assert_eq!(a, b),
            (Filter::Algorithm(a), Filter::Algorithm(b)) => assert_eq!(a, b),
            (Filter::Label(a), Filter::Label(b)) => assert_eq!(a.0, b.0),
            _ => panic!("filter kind changed"),
        }
    }
}

#[test]
fn filter_id_big_endian() {
    assert_eq!(encode(&Filter::Id(0x1234)), vec![0x01, 0x12, 0x34]);
    assert_eq!(encode(&Filter::Domains(0x0003)), vec![0x03, 0x00, 0x03]);
    let label = encode(&Filter::Label(Label::from_bytes(b"ab").unwrap()));
    assert_eq!(label.len(), 41);
    assert_eq!(&label[..3], &[0x06, b'a', b'b']);
    assert!(label[3..].iter().all(|b| *b == 0));
}

#[test]
fn filter_deserialize_errors() {
    let bad: Vec<Vec<u8>> = vec![
        vec![],
        vec![0x00],
        vec![0x07, 1, 2],
        vec![0x01, 0x12],
        vec![0x02, 0x09],
        vec![0x04, 0, 0, 0],
        vec![0x06, 1, 2, 3],
        vec![0x05, 0xff],
        vec![0x05, 0x00],
        vec![0x04, 0x80, 0, 0, 0, 0, 0, 0, 0],
        vec![0x04, 0x00, 0x80, 0, 0, 0, 0, 0, 0],
    ];
    for b in bad {
        assert_eq!(Filter::deserialize(&b).unwrap_err(), ClientErrorKind::ProtocolError);
    }
}

#[test]
fn label_padding_and_limit() {
    let l = Label::from_bytes(b"abc").unwrap();
    assert_eq!(l.0.len(), 40);
    assert_eq!(&l.0[..3], b"abc");
    assert!(Label::from_bytes(&[1u8; 41]).is_none());
    assert!(Label::from_bytes(&[1u8; 40]).is_some());
}

#[test]
fn object_type_bytes() {
    assert_eq!(ObjectType::from_u8(4), Some(ObjectType::WrapKey));
    assert_eq!(ObjectType::from_u8(0), None);
    assert_eq!(ObjectType::from_u8(8), None);
    assert_eq!(ObjectType::OtpAeadKey.to_u8(), 7);
}
