//! Filters for selecting objects in the list object command, and their
//! tag-length-value encoding.

use vstd::prelude::*;
use crate::be::{
    be_bytes, be_value, lemma_be_bytes_len, lemma_be_value_bound, lemma_be_value_of_bytes,
    lemma_bytes_of_be_value, lemma_pow256_facts, push_be, read_be,
};
use crate::connector::copy_range;
use crate::error::ClientErrorKind;
use crate::object::{self, type_code, type_of_code, Label, ObjectType, LABEL_SIZE};

verus! {

/// Filters to apply when listing objects
#[derive(Debug)]
pub enum Filter {
    /// Filter objects by algorithm
    Algorithm(u8),
    /// Filter objects by capability
    Capabilities(u64),
    /// Filter objects by domain
    Domains(u16),
    /// Filter objects by label
    Label(Label),
    /// Filter by object ID
    Id(object::Id),
    /// Filter by object type
    Type(ObjectType),
}

/// Abstract value of a filter.
pub enum FilterView {
    Algorithm(u8),
    Capabilities(u64),
    Domains(u16),
    Label(Seq<u8>),
    Id(u16),
    Type(ObjectType),
}

impl View for Filter {
    type V = FilterView;

    open spec fn view(&self) -> FilterView {
        match self {
            Filter::Algorithm(a) => FilterView::Algorithm(*a),
            Filter::Capabilities(c) => FilterView::Capabilities(*c),
            Filter::Domains(d) => FilterView::Domains(*d),
            Filter::Label(l) => FilterView::Label(l@),
            Filter::Id(i) => FilterView::Id(*i),
            Filter::Type(t) => FilterView::Type(*t),
        }
    }
}

/// Largest algorithm tag that the device knows; tags start at 1
pub const MAX_ALGORITHM_TAG: u8 = 0x2f;

/// All capability bits that the device defines
pub const CAPABILITY_MASK: u64 = 0x0000_7fff_ffff_ffff;

pub const TAG_ID: u8 = 0x01;

pub const TAG_TYPE: u8 = 0x02;

pub const TAG_DOMAINS: u8 = 0x03;

pub const TAG_CAPABILITIES: u8 = 0x04;

pub const TAG_ALGORITHM: u8 = 0x05;

pub const TAG_LABEL: u8 = 0x06;

/// Tag value for TLV serialization of a filter.
pub open spec fn tag_of(f: FilterView) -> u8 {
    match f {
        FilterView::Id(_) => TAG_ID,
        FilterView::Type(_) => TAG_TYPE,
        FilterView::Domains(_) => TAG_DOMAINS,
        FilterView::Capabilities(_) => TAG_CAPABILITIES,
        FilterView::Algorithm(_) => TAG_ALGORITHM,
        FilterView::Label(_) => TAG_LABEL,
    }
}

/// The value bytes that follow the tag.
pub open spec fn payload(f: FilterView) -> Seq<u8> {
    match f {
        FilterView::Id(i) => be_bytes(i as nat, 2),
        FilterView::Type(t) => seq![type_code(t)],
        FilterView::Domains(d) => be_bytes(d as nat, 2),
        FilterView::Capabilities(c) => be_bytes(c as nat, 8),
        FilterView::Algorithm(a) => seq![a],
        FilterView::Label(l) => l,
    }
}

/// The encoding of a filter: its tag, then its value.
pub open spec fn filter_bytes(f: FilterView) -> Seq<u8> {
    seq![tag_of(f)] + payload(f)
}

/// A filter whose label has the label size, whose algorithm is a known tag
/// and whose capabilities are defined bits.
pub open spec fn filter_wf(f: FilterView) -> bool {
    match f {
        FilterView::Label(l) => l.len() == LABEL_SIZE,
        FilterView::Algorithm(a) => 1 <= a <= MAX_ALGORITHM_TAG,
        FilterView::Capabilities(c) => c <= CAPABILITY_MASK,
        _ => true,
    }
}

/// Number of value bytes that follow a known tag.
pub open spec fn payload_len(tag: u8) -> nat {
    if tag == TAG_ID || tag == TAG_DOMAINS {
        2
    } else if tag == TAG_TYPE || tag == TAG_ALGORITHM {
        1
    } else if tag == TAG_CAPABILITIES {
        8
    } else {
        LABEL_SIZE as nat
    }
}

/// The bytes begin with a whole filter.
pub open spec fn deserializes(b: Seq<u8>) -> bool {
    &&& b.len() >= 1
    &&& TAG_ID <= b[0] <= TAG_LABEL
    &&& b.len() >= 1 + payload_len(b[0])
    &&& (b[0] == TAG_TYPE ==> 1 <= b[1] <= 7)
    &&& (b[0] == TAG_ALGORITHM ==> 1 <= b[1] <= MAX_ALGORITHM_TAG)
    &&& (b[0] == TAG_CAPABILITIES ==> be_value(b.subrange(1, 9)) <= CAPABILITY_MASK)
}

/// The filter that bytes which deserialize begin with.
pub open spec fn decode_filter(b: Seq<u8>) -> FilterView {
    let tag = b[0];
    let v = b.subrange(1, 1 + payload_len(tag) as int);
    if tag == TAG_ID {
        FilterView::Id(be_value(v) as u16)
    } else if tag == TAG_TYPE {
        FilterView::Type(type_of_code(b[1]))
    } else if tag == TAG_DOMAINS {
        FilterView::Domains(be_value(v) as u16)
    } else if tag == TAG_CAPABILITIES {
        FilterView::Capabilities(be_value(v) as u64)
    } else if tag == TAG_ALGORITHM {
        FilterView::Algorithm(b[1])
    } else {
        FilterView::Label(v)
    }
}

impl Filter {
    /// Tag value for TLV serialization for this filter
    pub fn tag(&self) -> (r: u8)
        ensures
            r == tag_of(self@),
    {
        match *self {
            Filter::Id(_) => TAG_ID,
            Filter::Type(_) => TAG_TYPE,
            Filter::Domains(_) => TAG_DOMAINS,
            Filter::Capabilities(_) => TAG_CAPABILITIES,
            Filter::Algorithm(_) => TAG_ALGORITHM,
            Filter::Label(_) => TAG_LABEL,
        }
    }

    /// Append the encoding of this filter to `out`.
    pub fn serialize(&self, out: &mut Vec<u8>)
        requires
            filter_wf(self@),
        ensures
            final(out)@ == old(out)@ + filter_bytes(self@),
    {
        let ghost start = out@;
        out.push(self.tag());
        let ghost mid = out@;
        match self {
            Filter::Algorithm(alg) => out.push(*alg),
            Filter::Capabilities(caps) => push_be(out, *caps, 8),
            Filter::Domains(doms) => push_be(out, *doms as u64, 2),
            Filter::Label(label) => {
                let mut i: usize = 0;
                while i < label.0.len()
                    invariant
                        i <= label@.len(),
                        out@ == mid + label@.subrange(0, i as int),
                    decreases label@.len() - i,
                {
                    out.push(label.0[i]);
                    i = i + 1;
                    assert(out@ =~= mid + label@.subrange(0, i as int));
                }
                assert(label@.subrange(0, i as int) =~= label@);
            },
            Filter::Id(id) => push_be(out, *id as u64, 2),
            Filter::Type(ty) => out.push(ty.to_u8()),
        }
        assert(out@ =~= start + filter_bytes(self@));
    }

    /// Read a filter from the start of `bytes`; also returns how many bytes it took.
    pub fn deserialize(bytes: &[u8]) -> (r: Result<(Filter, usize), ClientErrorKind>)
        ensures
            match r {
                Ok((f, n)) => deserializes(bytes@) && f@ == decode_filter(bytes@) && n == 1
                    + payload_len(bytes@[0]),
                Err(e) => !deserializes(bytes@) && e == ClientErrorKind::ProtocolError,
            },
    {
        let len = bytes.len();
        if len < 1 {
            return Err(ClientErrorKind::ProtocolError);
        }
        let tag = bytes[0];
        proof {
            lemma_pow256_facts();
        }
        if tag == TAG_ID {
            if len < 3 {
                return Err(ClientErrorKind::ProtocolError);
            }
            let v = read_be(bytes, 1, 2);
            proof {
                lemma_be_value_bound(bytes@.subrange(1, 3));
            }
            Ok((Filter::Id(v as u16), 3))
        } else if tag == TAG_TYPE {
            if len < 2 {
                return Err(ClientErrorKind::ProtocolError);
            }
            match ObjectType::from_u8(bytes[1]) {
                Some(t) => Ok((Filter::Type(t), 2)),
                None => Err(ClientErrorKind::ProtocolError),
            }
        } else if tag == TAG_DOMAINS {
            if len < 3 {
                return Err(ClientErrorKind::ProtocolError);
            }
            let v = read_be(bytes, 1, 2);
            proof {
                lemma_be_value_bound(bytes@.subrange(1, 3));
            }
            Ok((Filter::Domains(v as u16), 3))
        } else if tag == TAG_CAPABILITIES {
            if len < 9 {
                return Err(ClientErrorKind::ProtocolError);
            }
            let v = read_be(bytes, 1, 8);
            if v > CAPABILITY_MASK {
                return Err(ClientErrorKind::ProtocolError);
            }
            Ok((Filter::Capabilities(v), 9))
        } else if tag == TAG_ALGORITHM {
            if len < 2 {
                return Err(ClientErrorKind::ProtocolError);
            }
            if bytes[1] < 1 || bytes[1] > MAX_ALGORITHM_TAG {
                return Err(ClientErrorKind::ProtocolError);
            }
            Ok((Filter::Algorithm(bytes[1]), 2))
        } else if tag == TAG_LABEL {
            if len < 1 + LABEL_SIZE {
                return Err(ClientErrorKind::ProtocolError);
            }
            let v = copy_range(bytes, 1, 1 + LABEL_SIZE);
            Ok((Filter::Label(Label(v)), 1 + LABEL_SIZE))
        } else {
            Err(ClientErrorKind::ProtocolError)
        }
    }
}

/// Deserializing the encoding of a filter, whatever follows it, gives the
/// same filter back and takes exactly its encoding.
pub proof fn lemma_filter_round_trip(f: FilterView, rest: Seq<u8>)
    requires
        filter_wf(f),
    ensures
        deserializes(filter_bytes(f) + rest),
        decode_filter(filter_bytes(f) + rest) == f,
        filter_bytes(f).len() == 1 + payload_len(tag_of(f)),
{
    let b = filter_bytes(f) + rest;
    lemma_pow256_facts();
    match f {
        FilterView::Id(i) => {
            lemma_be_bytes_len(i as nat, 2);
            lemma_be_value_of_bytes(i as nat, 2);
            assert(b.subrange(1, 3) =~= be_bytes(i as nat, 2));
        },
        FilterView::Domains(d) => {
            lemma_be_bytes_len(d as nat, 2);
            lemma_be_value_of_bytes(d as nat, 2);
            assert(b.subrange(1, 3) =~= be_bytes(d as nat, 2));
        },
        FilterView::Capabilities(c) => {
            lemma_be_bytes_len(c as nat, 8);
            lemma_be_value_of_bytes(c as nat, 8);
            assert(b.subrange(1, 9) =~= be_bytes(c as nat, 8));
        },
        FilterView::Label(l) => {
            assert(b.subrange(1, 1 + LABEL_SIZE) =~= l);
        },
        FilterView::Type(t) => {},
        FilterView::Algorithm(a) => {},
    }
}

/// Encoding the filter that bytes begin with gives back those leading bytes.
pub proof fn lemma_filter_bytes_of_decode(b: Seq<u8>)
    requires
        deserializes(b),
    ensures
        filter_wf(decode_filter(b)),
        filter_bytes(decode_filter(b)) =~= b.subrange(0, 1 + payload_len(b[0]) as int),
{
    let tag = b[0];
    let v = b.subrange(1, 1 + payload_len(tag) as int);
    lemma_pow256_facts();
    lemma_be_value_bound(v);
    lemma_bytes_of_be_value(v);
}

} // verus!
