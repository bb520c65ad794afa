//! The record type field of an MLDv2 multicast address record.
use vstd::prelude::*;

verus! {

/// MLDv2 Multicast Address Record Type value.
#[derive(PartialEq, Eq, Clone, Copy, Hash, Ord, PartialOrd, Debug)]
pub struct Mldv2MulticastAddressRecordType(pub u8);

impl Mldv2MulticastAddressRecordType {
    /// The MODE_IS_INCLUDE record type (1).
    #[allow(non_snake_case)]
    pub fn MODE_IS_INCLUDE() -> (r: Mldv2MulticastAddressRecordType)
        ensures
            r.0 == 1,
    {
        Mldv2MulticastAddressRecordType(1)
    }

    /// The MODE_IS_EXCLUDE record type (2).
    #[allow(non_snake_case)]
    pub fn MODE_IS_EXCLUDE() -> (r: Mldv2MulticastAddressRecordType)
        ensures
            r.0 == 2,
    {
        Mldv2MulticastAddressRecordType(2)
    }

    /// The CHANGE_TO_INCLUDE_MODE record type (3).
    #[allow(non_snake_case)]
    pub fn CHANGE_TO_INCLUDE_MODE() -> (r: Mldv2MulticastAddressRecordType)
        ensures
            r.0 == 3,
    {
        Mldv2MulticastAddressRecordType(3)
    }

    /// The CHANGE_TO_EXCLUDE_MODE record type (4).
    #[allow(non_snake_case)]
    pub fn CHANGE_TO_EXCLUDE_MODE() -> (r: Mldv2MulticastAddressRecordType)
        ensures
            r.0 == 4,
    {
        Mldv2MulticastAddressRecordType(4)
    }

    /// The ALLOW_NEW_SOURCES record type (5).
    #[allow(non_snake_case)]
    pub fn ALLOW_NEW_SOURCES() -> (r: Mldv2MulticastAddressRecordType)
        ensures
            r.0 == 5,
    {
        Mldv2MulticastAddressRecordType(5)
    }

    /// The BLOCK_OLD_SOURCES record type (6).
    #[allow(non_snake_case)]
    pub fn BLOCK_OLD_SOURCES() -> (r: Mldv2MulticastAddressRecordType)
        ensures
            r.0 == 6,
    {
        Mldv2MulticastAddressRecordType(6)
    }

    /// Human-readable name for known record types (RFC 3810, Section 5.2.12).
    pub fn keyword_str(self) -> (r: Option<&'static str>)
        ensures
            self.0 == 1 ==> r == Some("MODE_IS_INCLUDE"),
            self.0 == 2 ==> r == Some("MODE_IS_EXCLUDE"),
            self.0 == 3 ==> r == Some("CHANGE_TO_INCLUDE_MODE"),
            self.0 == 4 ==> r == Some("CHANGE_TO_EXCLUDE_MODE"),
            self.0 == 5 ==> r == Some("ALLOW_NEW_SOURCES"),
            self.0 == 6 ==> r == Some("BLOCK_OLD_SOURCES"),
            (self.0 == 0 || self.0 > 6) <==> r.is_none(),
    {
        match self.0 {
            1 => Some("MODE_IS_INCLUDE"),
            2 => Some("MODE_IS_EXCLUDE"),
            3 => Some("CHANGE_TO_INCLUDE_MODE"),
            4 => Some("CHANGE_TO_EXCLUDE_MODE"),
            5 => Some("ALLOW_NEW_SOURCES"),
            6 => Some("BLOCK_OLD_SOURCES"),
            _ => None,
        }
    }
}

impl From<u8> for Mldv2MulticastAddressRecordType {
    fn from(val: u8) -> (r: Mldv2MulticastAddressRecordType) {
        Mldv2MulticastAddressRecordType(val)
    }
}

impl vstd::std_specs::convert::FromSpecImpl<u8> for Mldv2MulticastAddressRecordType {
    open spec fn obeys_from_spec() -> bool {
        true
    }

    open spec fn from_spec(val: u8) -> Mldv2MulticastAddressRecordType {
        Mldv2MulticastAddressRecordType(val)
    }
}

impl From<Mldv2MulticastAddressRecordType> for u8 {
    fn from(val: Mldv2MulticastAddressRecordType) -> (r: u8) {
        val.0
    }
}

impl vstd::std_specs::convert::FromSpecImpl<Mldv2MulticastAddressRecordType> for u8 {
    open spec fn obeys_from_spec() -> bool {
        true
    }

    open spec fn from_spec(val: Mldv2MulticastAddressRecordType) -> u8 {
        val.0
    }
}

} // verus!
