//! Errors of the MLD decoders.
use crate::err::LenError;
use crate::text::{decimal_u8, spec_decimal_u8};
use vstd::prelude::*;
use vstd::string::StringExecFns;

verus! {

/// Error when decoding an MLD message slice.
#[derive(Clone, Debug, Eq, PartialEq, Hash)]
pub enum MldSliceError {
    /// Length error while decoding the ICMPv6/MLD bytes.
    Len(LenError),
    /// The ICMPv6 type is not an MLD message type.
    UnexpectedIcmpv6Type {
        /// Actual ICMPv6 type value.
        type_u8: u8,
    },
}

impl MldSliceError {
    /// The text of this error.
    pub open spec fn spec_message(self) -> Seq<char> {
        match self {
            MldSliceError::Len(value) => value.spec_message(),
            MldSliceError::UnexpectedIcmpv6Type { type_u8 } => "MLD Slice Error: Unexpected ICMPv6 type '"@
                + spec_decimal_u8(type_u8) + "' (expected 130, 131, 132, or 143)."@,
        }
    }

    /// Returns the text of this error.
    pub fn message(&self) -> (r: String)
        ensures
            r@ == self.spec_message(),
    {
        match self {
            MldSliceError::Len(value) => value.message(),
            MldSliceError::UnexpectedIcmpv6Type { type_u8 } => {
                let mut s = String::from_str("MLD Slice Error: Unexpected ICMPv6 type '");
                s.append(decimal_u8(*type_u8).as_str());
                s.append("' (expected 130, 131, 132, or 143).");
                s
            },
        }
    }

    /// Returns the length error if this is a [`MldSliceError::Len`].
    pub fn len(&self) -> (r: Option<&LenError>)
        ensures
            match self {
                MldSliceError::Len(value) => r == Some(value),
                MldSliceError::UnexpectedIcmpv6Type { .. } => r.is_none(),
            },
    {
        match self {
            MldSliceError::Len(value) => Some(value),
            MldSliceError::UnexpectedIcmpv6Type { .. } => None,
        }
    }

    /// Returns the unexpected ICMPv6 type value if this is a
    /// [`MldSliceError::UnexpectedIcmpv6Type`].
    pub fn unexpected_icmpv6_type(&self) -> (r: Option<u8>)
        ensures
            match self {
                MldSliceError::Len(_) => r.is_none(),
                MldSliceError::UnexpectedIcmpv6Type { type_u8 } => r == Some(*type_u8),
            },
    {
        match self {
            MldSliceError::Len(_) => None,
            MldSliceError::UnexpectedIcmpv6Type { type_u8 } => Some(*type_u8),
        }
    }
}

impl From<LenError> for MldSliceError {
    fn from(value: LenError) -> (r: MldSliceError) {
        MldSliceError::Len(value)
    }
}

impl vstd::std_specs::convert::FromSpecImpl<LenError> for MldSliceError {
    open spec fn obeys_from_spec() -> bool {
        true
    }

    open spec fn from_spec(value: LenError) -> MldSliceError {
        MldSliceError::Len(value)
    }
}

} // verus!
