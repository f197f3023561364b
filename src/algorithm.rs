//! Pseudo-algorithms for opaque data objects.

use vstd::prelude::*;

verus! {

/// Error raised when a byte does not name a known algorithm.
#[derive(Copy, Clone, Debug, PartialEq, Eq, Structural)]
pub enum AlgorithmError {
    /// The tag byte is not assigned to any algorithm of this kind
    TagInvalid,
}

/// Valid algorithms for opaque data
#[allow(non_camel_case_types)]
#[derive(Copy, Clone, Debug, PartialEq, Eq, Structural)]
pub enum Algorithm {
    /// Arbitrary opaque data
    DATA,
    /// X.509 certificates
    X509_CERTIFICATE,
}

pub const OPAQUE_DATA_TAG: u8 = 0x1e;

pub const OPAQUE_X509_TAG: u8 = 0x1f;

/// The byte that identifies an opaque-data algorithm on the wire.
pub open spec fn algorithm_tag(a: Algorithm) -> u8 {
    match a {
        Algorithm::DATA => OPAQUE_DATA_TAG,
        Algorithm::X509_CERTIFICATE => OPAQUE_X509_TAG,
    }
}

impl Algorithm {
    /// Convert an unsigned byte tag into an `Algorithm` (if valid)
    pub fn from_u8(tag: u8) -> (r: Result<Algorithm, AlgorithmError>)
        ensures
            match r {
                Ok(a) => algorithm_tag(a) == tag,
                Err(e) => e == AlgorithmError::TagInvalid && tag != OPAQUE_DATA_TAG && tag
                    != OPAQUE_X509_TAG,
            },
    {
        if tag == OPAQUE_DATA_TAG {
            Ok(Algorithm::DATA)
        } else if tag == OPAQUE_X509_TAG {
            Ok(Algorithm::X509_CERTIFICATE)
        } else {
            Err(AlgorithmError::TagInvalid)
        }
    }

    /// Serialize algorithm ID as a byte
    pub fn to_u8(self) -> (r: u8)
        ensures
            r == algorithm_tag(self),
    {
        match self {
            Algorithm::DATA => OPAQUE_DATA_TAG,
            Algorithm::X509_CERTIFICATE => OPAQUE_X509_TAG,
        }
    }
}

} // verus!
