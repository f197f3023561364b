//! Object identifiers, labels and types.

use vstd::prelude::*;

verus! {

/// Object identifiers
pub type Id = u16;

/// Number of bytes in an object label
pub const LABEL_SIZE: usize = 40;

/// Labels attached to objects: always `LABEL_SIZE` bytes, zero-padded
#[derive(Debug)]
pub struct Label(pub Vec<u8>);

impl View for Label {
    type V = Seq<u8>;

    open spec fn view(&self) -> Seq<u8> {
        self.0@
    }
}

/// `n` zero bytes.
pub open spec fn zeros(n: nat) -> Seq<u8> {
    Seq::new(n, |i: int| 0u8)
}

impl Label {
    /// A label from at most `LABEL_SIZE` bytes, padded with zeros.
    pub fn from_bytes(b: &[u8]) -> (r: Option<Label>)
        ensures
            match r {
                Some(l) => b@.len() <= LABEL_SIZE && l@ == b@ + zeros(
                    (LABEL_SIZE - b@.len()) as nat,
                ),
                None => b@.len() > LABEL_SIZE,
            },
    {
        if b.len() > LABEL_SIZE {
            return None;
        }
        let mut v: Vec<u8> = Vec::new();
        let mut i: usize = 0;
        while i < LABEL_SIZE
            invariant
                b@.len() <= LABEL_SIZE,
                i <= LABEL_SIZE,
                v@.len() == i,
                forall|j: int| 0 <= j < i ==> v@[j] == if j < b@.len() { b@[j] } else { 0u8 },
            decreases LABEL_SIZE - i,
        {
            if i < b.len() {
                v.push(b[i]);
            } else {
                v.push(0u8);
            }
            i = i + 1;
        }
        assert(v@ =~= b@ + zeros((LABEL_SIZE - b@.len()) as nat));
        Some(Label(v))
    }

    /// Copy of this label.
    pub fn duplicate(&self) -> (r: Label)
        ensures
            r@ == self@,
    {
        Label(self.0.clone())
    }
}

/// Types of objects
#[derive(Copy, Clone, Debug, PartialEq, Eq, Structural)]
pub enum ObjectType {
    /// Raw data
    Opaque,
    /// Authentication key for establishing a session
    AuthenticationKey,
    /// Asymmetric private key
    AsymmetricKey,
    /// Key for wrapping other objects
    WrapKey,
    /// HMAC key
    HmacKey,
    /// SSH template
    Template,
    /// Yubico OTP AEAD key
    OtpAeadKey,
}

/// The byte that names each object type.
pub open spec fn type_code(t: ObjectType) -> u8 {
    match t {
        ObjectType::Opaque => 1,
        ObjectType::AuthenticationKey => 2,
        ObjectType::AsymmetricKey => 3,
        ObjectType::WrapKey => 4,
        ObjectType::HmacKey => 5,
        ObjectType::Template => 6,
        ObjectType::OtpAeadKey => 7,
    }
}

/// The object type that a byte in `1..=7` names.
pub open spec fn type_of_code(b: u8) -> ObjectType {
    if b == 1 {
        ObjectType::Opaque
    } else if b == 2 {
        ObjectType::AuthenticationKey
    } else if b == 3 {
        ObjectType::AsymmetricKey
    } else if b == 4 {
        ObjectType::WrapKey
    } else if b == 5 {
        ObjectType::HmacKey
    } else if b == 6 {
        ObjectType::Template
    } else {
        ObjectType::OtpAeadKey
    }
}

impl ObjectType {
    /// Decode an object type byte.
    pub fn from_u8(b: u8) -> (r: Option<ObjectType>)
        ensures
            1 <= b <= 7 ==> r == Some(type_of_code(b)),
            !(1 <= b <= 7) ==> r.is_none(),
    {
        match b {
            1 => Some(ObjectType::Opaque),
            2 => Some(ObjectType::AuthenticationKey),
            3 => Some(ObjectType::AsymmetricKey),
            4 => Some(ObjectType::WrapKey),
            5 => Some(ObjectType::HmacKey),
            6 => Some(ObjectType::Template),
            7 => Some(ObjectType::OtpAeadKey),
            _ => None,
        }
    }

    /// Encode this object type as a byte.
    pub fn to_u8(self) -> (r: u8)
        ensures
            r == type_code(self),
            1 <= r <= 7,
            type_of_code(r) == self,
    {
        match self {
            ObjectType::Opaque => 1,
            ObjectType::AuthenticationKey => 2,
            ObjectType::AsymmetricKey => 3,
            ObjectType::WrapKey => 4,
            ObjectType::HmacKey => 5,
            ObjectType::Template => 6,
            ObjectType::OtpAeadKey => 7,
        }
    }
}

} // verus!
