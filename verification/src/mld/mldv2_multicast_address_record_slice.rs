//! Zero-copy view of one MLDv2 multicast address record (RFC 3810, Section 5.2.4).
use crate::bytes::{be_u16, ipv6_addr_at, u16_at};
use crate::err::{slice_len_error, spec_len_error, LenError};
use super::mld_source_addresses_iterator::MldSourceAddressesIterator;
use super::mldv2_multicast_address_record_type::Mldv2MulticastAddressRecordType;
use vstd::prelude::*;

verus! {

/// Length of the fixed part of a record (type, aux data len, source count, address).
pub const MLDV2_MULTICAST_ADDRESS_RECORD_FIXED_LEN: usize = 20;

/// Length of the record starting at `s[0]` as announced by its source count and
/// auxiliary data length fields (meaningful when `s` holds at least 20 bytes).
pub open spec fn spec_record_len(s: Seq<u8>) -> int {
    20 + be_u16(s, 2) * 16 + s[1] as int * 4
}

/// Outcome of decoding the record at the start of `s`: the length of the record,
/// or the length error that the decoder reports.
pub open spec fn spec_record_parse(s: Seq<u8>) -> Result<int, LenError> {
    if s.len() < 20 {
        Err(spec_len_error(20, s.len() as int))
    } else if s.len() < spec_record_len(s) {
        Err(spec_len_error(spec_record_len(s), s.len() as int))
    } else {
        Ok(spec_record_len(s))
    }
}

/// A decoded record never has fewer than 20 bytes and never more than were given.
pub proof fn lemma_record_parse_bounds(s: Seq<u8>)
    ensures
        spec_record_parse(s) matches Ok(l) ==> 20 <= l <= s.len() && l == spec_record_len(s),
        spec_record_parse(s) matches Ok(l) ==> spec_record_parse(s.subrange(0, l)) == spec_record_parse(s),
{
    if s.len() >= 20 && s.len() >= spec_record_len(s) {
        let t = s.subrange(0, spec_record_len(s));
        assert(t[1] == s[1] && t[2] == s[2] && t[3] == s[3]);
    }
}

/// Borrowed MLDv2 Multicast Address Record
/// ([RFC 3810, Section 5.2.4](https://datatracker.ietf.org/doc/html/rfc3810)).
///
/// The record layout is: record type (1 byte), auxiliary data length in 32-bit
/// words (1 byte), number of sources N (2 bytes), multicast address (16 bytes),
/// N source addresses (16 bytes each), then the auxiliary data.
#[derive(Debug, Eq, PartialEq)]
pub struct Mldv2MulticastAddressRecordSlice<'a> {
    slice: &'a [u8],
}

impl<'a> View for Mldv2MulticastAddressRecordSlice<'a> {
    type V = Seq<u8>;

    /// The bytes of the record.
    closed spec fn view(&self) -> Seq<u8> {
        self.slice@
    }
}

impl<'a> Clone for Mldv2MulticastAddressRecordSlice<'a> {
    fn clone(&self) -> (r: Self)
        ensures
            r@ == self@,
    {
        proof {
            use_type_invariant(self);
        }
        Mldv2MulticastAddressRecordSlice { slice: self.slice }
    }
}

impl<'a> Mldv2MulticastAddressRecordSlice<'a> {
    #[verifier::type_invariant]
    spec fn complete(self) -> bool {
        &&& self.slice@.len() >= 20
        &&& self.slice@.len() == spec_record_len(self.slice@)
    }

    /// Decode a multicast address record from bytes.
    ///
    /// The returned record covers exactly the announced record length; bytes after it
    /// are not part of the record.
    pub fn from_slice(slice: &'a [u8]) -> (r: Result<Self, LenError>)
        ensures
            match spec_record_parse(slice@) {
                Ok(l) => r matches Ok(rec) && rec@ == slice@.subrange(0, l),
                Err(e) => r == Err::<Self, LenError>(e),
            },
    {
        if slice.len() < MLDV2_MULTICAST_ADDRESS_RECORD_FIXED_LEN {
            return Err(slice_len_error(MLDV2_MULTICAST_ADDRESS_RECORD_FIXED_LEN, slice.len()));
        }
        let required_len = MLDV2_MULTICAST_ADDRESS_RECORD_FIXED_LEN + (u16_at(slice, 2) as usize)
            * 16 + (slice[1] as usize) * 4;
        if slice.len() < required_len {
            return Err(slice_len_error(required_len, slice.len()));
        }
        let record = &slice[0..required_len];
        proof {
            lemma_record_parse_bounds(slice@);
        }
        Ok(Self { slice: record })
    }

    /// Returns the complete record bytes.
    pub fn slice(&self) -> (r: &'a [u8])
        ensures
            r@ == self@,
    {
        self.slice
    }

    /// Record type.
    pub fn record_type(&self) -> (r: Mldv2MulticastAddressRecordType)
        ensures
            r.0 == self@[0],
    {
        proof {
            use_type_invariant(self);
        }
        Mldv2MulticastAddressRecordType(self.slice[0])
    }

    /// Auxiliary data length in 32-bit words.
    pub fn aux_data_len(&self) -> (r: u8)
        ensures
            r == self@[1],
    {
        proof {
            use_type_invariant(self);
        }
        self.slice[1]
    }

    /// Number of source addresses.
    pub fn number_of_sources(&self) -> (r: u16)
        ensures
            r == be_u16(self@, 2),
    {
        proof {
            use_type_invariant(self);
        }
        u16_at(self.slice, 2)
    }

    /// Multicast address this record pertains to.
    pub fn multicast_address(&self) -> (r: [u8; 16])
        ensures
            r@ == self@.subrange(4, 20),
    {
        proof {
            use_type_invariant(self);
        }
        ipv6_addr_at(self.slice, 4)
    }

    /// Source address bytes (16 bytes per announced source).
    pub fn source_addresses(&self) -> (r: &'a [u8])
        ensures
            r@ == self@.subrange(20, 20 + 16 * be_u16(self@, 2)),
    {
        proof {
            use_type_invariant(self);
        }
        let len = (self.number_of_sources() as usize) * 16;
        &self.slice[20..20 + len]
    }

    /// Iterator over source addresses.
    pub fn source_addresses_iterator(&self) -> (r: MldSourceAddressesIterator<'a>)
        ensures
            r@ == self@.subrange(20, 20 + 16 * be_u16(self@, 2)),
    {
        let sources = self.source_addresses();
        proof {
            use_type_invariant(self);
            let n = be_u16(self@, 2);
            assert(sources@.len() == 16 * n);
            assert((20 + 16 * n) - 20 == 16 * n);
            assert((16 * n) % 16 == 0) by (nonlinear_arith);
        }
        MldSourceAddressesIterator::from_aligned_slice(sources)
    }

    /// Auxiliary data bytes (everything after the source addresses).
    pub fn auxiliary_data(&self) -> (r: &'a [u8])
        ensures
            r@ == self@.subrange(20 + 16 * be_u16(self@, 2), self@.len() as int),
            r@.len() == 4 * self@[1],
    {
        proof {
            use_type_invariant(self);
        }
        let start = 20 + (self.number_of_sources() as usize) * 16;
        &self.slice[start..self.slice.len()]
    }
}

} // verus!
