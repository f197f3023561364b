//! Wrap keys for making encrypted backups of keys within the HSM, so they can
//! be imported into other devices.

use vstd::prelude::*;
use rand_os::rand_core::RngCore;
use zeroize::Zeroize;
use crate::connector::copy_range;
use crate::error::DeviceErrorKind;
use crate::object::{self, Label, LABEL_SIZE};

verus! {

/// Wrap key algorithms
#[allow(non_camel_case_types)]
#[derive(Copy, Clone, Debug, PartialEq, Eq, Structural)]
pub enum Algorithm {
    /// AES-128 in CCM mode
    AES128_CCM,
    /// AES-192 in CCM mode
    AES192_CCM,
    /// AES-256 in CCM mode
    AES256_CCM,
}

/// Key length in bytes of each wrap algorithm.
pub open spec fn key_len_of(a: Algorithm) -> nat {
    match a {
        Algorithm::AES128_CCM => 16,
        Algorithm::AES192_CCM => 24,
        Algorithm::AES256_CCM => 32,
    }
}

impl Algorithm {
    /// Key length in bytes.
    pub fn key_len(self) -> (r: usize)
        ensures
            r == key_len_of(self),
    {
        match self {
            Algorithm::AES128_CCM => 16,
            Algorithm::AES192_CCM => 24,
            Algorithm::AES256_CCM => 32,
        }
    }
}

/// Domains: all sixteen
pub const ALL_DOMAINS: u16 = 0xffff;

/// Abstract value of a wrap key.
pub struct KeyView {
    pub id: object::Id,
    pub label: Seq<u8>,
    pub domains: u16,
    pub capabilities: u64,
    pub delegated_capabilities: u64,
    pub algorithm: Algorithm,
    pub data: Seq<u8>,
}

/// Wrap key to import into the device
pub struct Key {
    id: object::Id,
    label: Label,
    domains: u16,
    capabilities: u64,
    delegated_capabilities: u64,
    algorithm: Algorithm,
    data: Vec<u8>,
}

impl View for Key {
    type V = KeyView;

    closed spec fn view(&self) -> KeyView {
        KeyView {
            id: self.id,
            label: self.label@,
            domains: self.domains,
            capabilities: self.capabilities,
            delegated_capabilities: self.delegated_capabilities,
            algorithm: self.algorithm,
            data: self.data@,
        }
    }
}

/// The parameters of the command that imports a wrap key.
pub struct PutWrapKey {
    pub id: object::Id,
    pub label: Label,
    pub domains: u16,
    pub capabilities: u64,
    pub delegated_capabilities: u64,
    pub algorithm: Algorithm,
    pub data: Vec<u8>,
}

/// A key made from the given bytes, with every other attribute at its
/// default: zero label, all domains, no capabilities, no delegated ones.
pub open spec fn key_from_bytes(id: object::Id, data: Seq<u8>, alg: Algorithm) -> KeyView {
    KeyView {
        id,
        label: Seq::new(LABEL_SIZE as nat, |i: int| 0u8),
        domains: ALL_DOMAINS,
        capabilities: 0,
        delegated_capabilities: 0,
        algorithm: alg,
        data,
    }
}

/// The wrap algorithm whose key has `n` bytes, if any.
pub open spec fn algorithm_for_len(n: nat) -> Option<Algorithm> {
    if n == 16 {
        Some(Algorithm::AES128_CCM)
    } else if n == 24 {
        Some(Algorithm::AES192_CCM)
    } else if n == 32 {
        Some(Algorithm::AES256_CCM)
    } else {
        None
    }
}

/// Relies on rand_os: `OsRng::new` opens the operating system's generator and
/// `RngCore::try_fill_bytes` fills the buffer from it. Nothing is promised of
/// the bytes but their number; either step may fail.
#[verifier::external_body]
fn os_random_bytes(len: usize) -> (r: Option<Vec<u8>>)
    ensures
        r matches Some(v) ==> v@.len() == len,
{
    let mut rng = rand_os::OsRng::new().ok()?;
    let mut bytes = vec![0u8; len];
    rng.try_fill_bytes(&mut bytes).ok()?;
    Some(bytes)
}

/// Relies on zeroize's `Zeroize` for `Vec<u8>`: it overwrites the elements
/// and spare capacity with zeros, then clears the vector.
#[verifier::external_body]
pub(crate) fn wipe_bytes(v: &mut Vec<u8>)
    ensures
        final(v)@.len() == 0,
{
    v.zeroize();
}

impl Key {
    /// Generate a random wrap key with the given key size. `None` when the
    /// operating system's generator fails.
    pub fn generate_random(key_id: object::Id, algorithm: Algorithm) -> (r: Option<Key>)
        ensures
            r matches Some(k) ==> k@ == key_from_bytes(key_id, k@.data, algorithm) && k@.data.len()
                == key_len_of(algorithm),
    {
        let mut bytes = match os_random_bytes(algorithm.key_len()) {
            Some(b) => b,
            None => return None,
        };
        let result = Self::from_bytes(key_id, bytes.as_slice());
        wipe_bytes(&mut bytes);
        match result {
            Ok(k) => Some(k),
            Err(_) => None,
        }
    }

    /// Create a new `wrap::Key` instance. Must be 16, 24, or 32-bytes long.
    pub fn from_bytes(key_id: object::Id, bytes: &[u8]) -> (r: Result<Key, DeviceErrorKind>)
        ensures
            match algorithm_for_len(bytes@.len()) {
                Some(alg) => r matches Ok(k) && k@ == key_from_bytes(key_id, bytes@, alg),
                None => r == Err::<Key, DeviceErrorKind>(DeviceErrorKind::WrongLength),
            },
    {
        let len = bytes.len();
        let alg = if len == 16 {
            Algorithm::AES128_CCM
        } else if len == 24 {
            Algorithm::AES192_CCM
        } else if len == 32 {
            Algorithm::AES256_CCM
        } else {
            return Err(DeviceErrorKind::WrongLength);
        };
        let label = match Label::from_bytes(&[]) {
            Some(l) => l,
            None => return Err(DeviceErrorKind::WrongLength),
        };
        assert(label@ =~= Seq::new(LABEL_SIZE as nat, |i: int| 0u8));
        let data = copy_range(bytes, 0, len);
        assert(data@ =~= bytes@);
        Ok(
            Key {
                id: key_id,
                label,
                domains: ALL_DOMAINS,
                capabilities: 0,
                delegated_capabilities: 0,
                algorithm: alg,
                data,
            },
        )
    }

    /// Set the object label on this key
    pub fn label(self, label: Label) -> (r: Key)
        ensures
            r@ == (KeyView { label: label@, ..self@ }),
    {
        Key { label, ..self }
    }

    /// Set the domains this wrap key can be used in (default: all)
    pub fn domains(self, domains: u16) -> (r: Key)
        ensures
            r@ == (KeyView { domains, ..self@ }),
    {
        Key { domains, ..self }
    }

    /// Set the capabilities of this key (what it can be used for)
    pub fn capabilities(self, capabilities: u64) -> (r: Key)
        ensures
            r@ == (KeyView { capabilities, ..self@ }),
    {
        Key { capabilities, ..self }
    }

    /// Set the delegated capabilities of this key (what capabilities it can
    /// set on imported objects)
    pub fn delegated_capabilities(self, capabilities: u64) -> (r: Key)
        ensures
            r@ == (KeyView { delegated_capabilities: capabilities, ..self@ }),
    {
        Key { delegated_capabilities: capabilities, ..self }
    }

    /// The command that creates this key within the HSM.
    pub fn create(&self) -> (r: PutWrapKey)
        ensures
            r.id == self@.id,
            r.label@ == self@.label,
            r.domains == self@.domains,
            r.capabilities == self@.capabilities,
            r.delegated_capabilities == self@.delegated_capabilities,
            r.algorithm == self@.algorithm,
            r.data@ == self@.data,
    {
        PutWrapKey {
            id: self.id,
            label: self.label.duplicate(),
            domains: self.domains,
            capabilities: self.capabilities,
            delegated_capabilities: self.delegated_capabilities,
            algorithm: self.algorithm,
            data: self.data.clone(),
        }
    }

    /// Overwrite the key bytes with zeros and drop them.
    pub fn wipe(&mut self)
        ensures
            final(self)@ == (KeyView { data: Seq::empty(), ..old(self)@ }),
    {
        wipe_bytes(&mut self.data);
        assert(self.data@ =~= Seq::<u8>::empty());
    }
}

} // verus!
