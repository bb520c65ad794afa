//! A Multicast Listener Query of either version.
use crate::bytes::be_u16;
use crate::err::{slice_len_error, spec_len_error, LenError};
use super::mld_slice::MldKind;
use super::mldv1_query::Mldv1Query;
use super::mldv1_query_slice::Mldv1QuerySlice;
use super::mldv2_query_slice::{spec_query_v2_parse, Mldv2QuerySlice, MLDV2_QUERY_MIN_LEN};
use vstd::prelude::*;

verus! {

/// Outcome of decoding a query from the complete ICMPv6 message `s`: exactly 24 bytes
/// make an MLDv1 query, 28 or more bytes an MLDv2 query (RFC 3810, Section 8.1).
pub open spec fn spec_query_parse(s: Seq<u8>) -> Result<MldKind, LenError> {
    if s.len() < 24 {
        Err(spec_len_error(24, s.len() as int))
    } else if s.len() == 24 {
        Ok(MldKind::QueryV1)
    } else if s.len() < 28 {
        Err(spec_len_error(28, s.len() as int))
    } else {
        match spec_query_v2_parse(s) {
            Ok(_) => Ok(MldKind::QueryV2),
            Err(e) => Err(e),
        }
    }
}

/// Multicast Listener Query message slice.
#[derive(Clone, Debug, Eq, PartialEq)]
#[non_exhaustive]
pub enum MldQuerySlice<'a> {
    /// MLDv1 query (24 octets total).
    Version1(Mldv1QuerySlice<'a>),
    /// MLDv2 query (28 or more octets total).
    Version2(Mldv2QuerySlice<'a>),
}

impl<'a> View for MldQuerySlice<'a> {
    type V = Seq<u8>;

    /// The complete ICMPv6 message bytes.
    open spec fn view(&self) -> Seq<u8> {
        match self {
            MldQuerySlice::Version1(value) => value@,
            MldQuerySlice::Version2(value) => value@,
        }
    }
}

impl<'a> MldQuerySlice<'a> {
    /// Which query version this is.
    pub open spec fn kind(self) -> MldKind {
        match self {
            MldQuerySlice::Version1(_) => MldKind::QueryV1,
            MldQuerySlice::Version2(_) => MldKind::QueryV2,
        }
    }

    /// Decode an MLD query from bytes containing a full ICMPv6 message.
    pub fn from_slice(slice: &'a [u8]) -> (r: Result<Self, LenError>)
        ensures
            match spec_query_parse(slice@) {
                Ok(kind) => r matches Ok(query) && query.kind() == kind && query@ == slice@,
                Err(e) => r == Err::<Self, LenError>(e),
            },
    {
        let len = slice.len();
        if len < Mldv1Query::LEN {
            return Err(slice_len_error(Mldv1Query::LEN, len));
        }
        if len == Mldv1Query::LEN {
            return Ok(MldQuerySlice::Version1(Mldv1QuerySlice::new(slice)));
        }
        if len < MLDV2_QUERY_MIN_LEN {
            return Err(slice_len_error(MLDV2_QUERY_MIN_LEN, len));
        }
        match Mldv2QuerySlice::from_slice(slice) {
            Ok(query) => Ok(MldQuerySlice::Version2(query)),
            Err(e) => Err(e),
        }
    }

    /// Returns the complete ICMPv6/MLD query message bytes.
    pub fn slice(&self) -> (r: &'a [u8])
        ensures
            r@ == self@,
    {
        match self {
            MldQuerySlice::Version1(value) => value.slice(),
            MldQuerySlice::Version2(value) => value.slice(),
        }
    }

    /// Maximum Response Delay/Code field.
    pub fn maximum_response_code(&self) -> (r: u16)
        ensures
            r == be_u16(self@, 4),
    {
        match self {
            MldQuerySlice::Version1(value) => value.maximum_response_delay(),
            MldQuerySlice::Version2(value) => value.maximum_response_code(),
        }
    }

    /// Multicast address field.
    pub fn multicast_address(&self) -> (r: [u8; 16])
        ensures
            r@ == self@.subrange(8, 24),
    {
        match self {
            MldQuerySlice::Version1(value) => value.multicast_address(),
            MldQuerySlice::Version2(value) => value.multicast_address(),
        }
    }
}

} // verus!
