//! The ICMPv6 framing that MLD messages are carried in: type values, the first 8
//! header bytes, and a length-checked slice of a complete ICMPv6 message.
use crate::bytes::{be_bytes, hi_byte, lo_byte, u16_to_be_bytes};
use crate::err::{slice_len_error, spec_len_error, LenError};
use vstd::prelude::*;

verus! {

/// ICMPv6 type value of an Echo Request.
pub const TYPE_ECHO_REQUEST: u8 = 128;

/// ICMPv6 type value of a Multicast Listener Query (MLDv1 and MLDv2).
pub const TYPE_MULTICAST_LISTENER_QUERY: u8 = 130;

/// ICMPv6 type value of a Version 1 Multicast Listener Report.
pub const TYPE_MULTICAST_LISTENER_REPORT: u8 = 131;

/// ICMPv6 type value of a Version 1 Multicast Listener Done message.
pub const TYPE_MULTICAST_LISTENER_DONE: u8 = 132;

/// Another name of [`TYPE_MULTICAST_LISTENER_DONE`] (RFC 2710 calls it "reduction").
pub const TYPE_MULTICAST_LISTENER_REDUCTION: u8 = 132;

/// ICMPv6 type value of a Version 2 Multicast Listener Report.
pub const TYPE_MULTICAST_LISTENER_REPORT_V2: u8 = 143;

/// Largest ICMPv6 message length: the upper-layer length in the IPv6 pseudo header
/// used for the checksum is a 32-bit field.
pub const MAX_MESSAGE_LEN: usize = 4294967295;

/// Type, code and bytes 5 to 8 of an ICMPv6 header.
#[derive(Clone, Copy, Debug, PartialEq, Eq, Hash)]
pub enum Icmpv6Type {
    /// A message whose type dependent bytes are kept as they are.
    Unknown {
        /// ICMPv6 type value (first byte).
        type_u8: u8,
        /// ICMPv6 code value (second byte).
        code_u8: u8,
        /// Bytes 5 to 8 of the header.
        bytes5to8: [u8; 4],
    },
}

impl Icmpv6Type {
    /// Header values of a Multicast Listener Query with the given maximum response
    /// delay/code.
    pub open spec fn spec_multicast_listener_query(maximum_response_code: u16) -> Icmpv6Type {
        Icmpv6Type::Unknown {
            type_u8: TYPE_MULTICAST_LISTENER_QUERY,
            code_u8: 0,
            bytes5to8: [hi_byte(maximum_response_code), lo_byte(maximum_response_code), 0, 0],
        }
    }

    /// Header values of a Version 2 Multicast Listener Report with the given number of
    /// records.
    pub open spec fn spec_multicast_listener_report_v2(number_of_records: u16) -> Icmpv6Type {
        Icmpv6Type::Unknown {
            type_u8: TYPE_MULTICAST_LISTENER_REPORT_V2,
            code_u8: 0,
            bytes5to8: [0, 0, hi_byte(number_of_records), lo_byte(number_of_records)],
        }
    }

    /// Header values of a Multicast Listener Query with the given maximum response
    /// delay/code (bytes 5 and 6); the reserved bytes 7 and 8 are zero.
    pub fn multicast_listener_query(maximum_response_code: u16) -> (r: Self)
        ensures
            r == Self::spec_multicast_listener_query(maximum_response_code),
    {
        let code = u16_to_be_bytes(maximum_response_code);
        let bytes5to8 = [code[0], code[1], 0, 0];
        Self::Unknown { type_u8: TYPE_MULTICAST_LISTENER_QUERY, code_u8: 0, bytes5to8 }
    }

    /// Header values of a Version 2 Multicast Listener Report announcing
    /// `number_of_records` records (bytes 7 and 8); the reserved bytes 5 and 6 are zero.
    pub fn multicast_listener_report_v2(number_of_records: u16) -> (r: Self)
        ensures
            r == Self::spec_multicast_listener_report_v2(number_of_records),
    {
        let count = u16_to_be_bytes(number_of_records);
        let bytes5to8 = [0, 0, count[0], count[1]];
        Self::Unknown { type_u8: TYPE_MULTICAST_LISTENER_REPORT_V2, code_u8: 0, bytes5to8 }
    }
}

/// The first 8 bytes of an ICMPv6 message.
#[derive(Clone, Copy, Debug, PartialEq, Eq, Hash)]
pub struct Icmpv6Header {
    /// Type, code and bytes 5 to 8.
    pub icmp_type: Icmpv6Type,
    /// Checksum (bytes 3 and 4).
    pub checksum: u16,
}

impl Icmpv6Header {
    /// Length of the ICMPv6 header.
    pub const MIN_LEN: usize = 8;

    /// Header with the given type and a zero checksum.
    pub fn new(icmp_type: Icmpv6Type) -> (r: Self)
        ensures
            r.icmp_type == icmp_type,
            r.checksum == 0,
    {
        Icmpv6Header { icmp_type, checksum: 0 }
    }

    /// The 8 bytes of this header.
    pub open spec fn spec_bytes(self) -> Seq<u8> {
        match self.icmp_type {
            Icmpv6Type::Unknown { type_u8, code_u8, bytes5to8 } => seq![type_u8, code_u8]
                + be_bytes(self.checksum) + bytes5to8@,
        }
    }

    /// Returns the 8 bytes of this header.
    pub fn to_bytes(&self) -> (r: [u8; 8])
        ensures
            r@ == self.spec_bytes(),
    {
        let checksum = u16_to_be_bytes(self.checksum);
        match self.icmp_type {
            Icmpv6Type::Unknown { type_u8, code_u8, bytes5to8 } => {
                let r = [
                    type_u8,
                    code_u8,
                    checksum[0],
                    checksum[1],
                    bytes5to8[0],
                    bytes5to8[1],
                    bytes5to8[2],
                    bytes5to8[3],
                ];
                assert(r@ =~= self.spec_bytes());
                r
            },
        }
    }
}

/// Outcome of checking the length of a complete ICMPv6 message `s`.
pub open spec fn spec_message_len_check(s: Seq<u8>) -> Result<(), LenError> {
    if s.len() < 8 {
        Err(spec_len_error(8, s.len() as int))
    } else if s.len() > MAX_MESSAGE_LEN {
        Err(spec_len_error(MAX_MESSAGE_LEN as int, s.len() as int))
    } else {
        Ok(())
    }
}

/// A complete ICMPv6 message of a length that ICMPv6 allows.
#[derive(Clone, Copy, Debug, Eq, PartialEq)]
pub struct Icmpv6Slice<'a> {
    slice: &'a [u8],
}

impl<'a> View for Icmpv6Slice<'a> {
    type V = Seq<u8>;

    /// The message bytes.
    closed spec fn view(&self) -> Seq<u8> {
        self.slice@
    }
}

impl<'a> Icmpv6Slice<'a> {
    /// Checks the length of a complete ICMPv6 message: at least the 8 header bytes and
    /// at most [`MAX_MESSAGE_LEN`] bytes.
    pub fn from_slice(slice: &'a [u8]) -> (r: Result<Self, LenError>)
        ensures
            match spec_message_len_check(slice@) {
                Ok(_) => r matches Ok(message) && message@ == slice@,
                Err(e) => r == Err::<Self, LenError>(e),
            },
    {
        if slice.len() < 8 {
            return Err(slice_len_error(8, slice.len()));
        }
        if slice.len() > MAX_MESSAGE_LEN {
            return Err(slice_len_error(MAX_MESSAGE_LEN, slice.len()));
        }
        Ok(Icmpv6Slice { slice })
    }

    #[verifier::type_invariant]
    spec fn len_ok(self) -> bool {
        spec_message_len_check(self.slice@) is Ok
    }

    /// The complete message bytes.
    pub fn slice(&self) -> (r: &'a [u8])
        ensures
            r@ == self@,
    {
        self.slice
    }

    /// ICMPv6 type value (first byte).
    pub fn type_u8(&self) -> (r: u8)
        ensures
            r == self@[0],
    {
        proof {
            use_type_invariant(self);
        }
        self.slice[0]
    }
}

} // verus!
