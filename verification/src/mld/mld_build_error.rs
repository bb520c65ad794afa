//! Errors of the MLD encoders.
use crate::err::{Layer, SliceWriteSpaceError};
use crate::text::{decimal_usize, spec_decimal_usize};
use vstd::prelude::*;
use vstd::string::StringExecFns;

verus! {

/// Declares `std::io::Error` so that an IO write error can be carried in [`MldIoWriteError`].
#[verifier::external_type_specification]
#[verifier::external_body]
pub struct ExIoError(std::io::Error);

/// Error while building serialized MLD payload bytes.
#[derive(Clone, Debug, Eq, PartialEq, Hash)]
pub enum MldBuildError {
    /// Number of source addresses can not be represented in the MLD field.
    SourceAddressCountTooBig {
        /// Actual number of source addresses.
        actual: usize,
    },
    /// Number of multicast address records can not be represented in the MLD field.
    MulticastAddressRecordCountTooBig {
        /// Actual number of multicast address records.
        actual: usize,
    },
    /// Auxiliary data is too large to be represented by the auxiliary data length field.
    AuxiliaryDataLenTooBig {
        /// Actual auxiliary data length in bytes.
        actual: usize,
    },
    /// Auxiliary data length is not a multiple of 4 bytes.
    AuxiliaryDataLenUnaligned {
        /// Actual auxiliary data length in bytes.
        actual: usize,
    },
    /// Total MLD payload length is too large to be represented on this platform.
    PayloadLenTooBig,
    /// Not enough space was available in the output slice.
    SliceWriteSpace(SliceWriteSpaceError),
}

/// The error for an output slice of `len` bytes where `required_len` bytes are needed.
pub open spec fn spec_slice_write_space(required_len: usize, len: usize) -> MldBuildError {
    MldBuildError::SliceWriteSpace(
        SliceWriteSpaceError { required_len, len, layer: Layer::Icmpv6, layer_start_offset: 0 },
    )
}

impl MldBuildError {
    /// Error for an output slice of `len` bytes where `required_len` bytes are needed.
    pub(crate) fn slice_write_space(required_len: usize, len: usize) -> (r: MldBuildError)
        ensures
            r == spec_slice_write_space(required_len, len),
    {
        MldBuildError::SliceWriteSpace(
            SliceWriteSpaceError { required_len, len, layer: Layer::Icmpv6, layer_start_offset: 0 },
        )
    }

    /// The text of this error.
    pub open spec fn spec_message(self) -> Seq<char> {
        match self {
            MldBuildError::SourceAddressCountTooBig { actual } => "MLD build error: "@
                + spec_decimal_usize(actual)
                + " source addresses can not be represented by a 16-bit source address count field."@,
            MldBuildError::MulticastAddressRecordCountTooBig { actual } => "MLD build error: "@
                + spec_decimal_usize(actual)
                + " multicast address records can not be represented by a 16-bit record count field."@,
            MldBuildError::AuxiliaryDataLenTooBig { actual } => "MLD build error: "@
                + spec_decimal_usize(actual)
                + " bytes of auxiliary data can not be represented by an 8-bit auxiliary data length field."@,
            MldBuildError::AuxiliaryDataLenUnaligned { actual } =>
                "MLD build error: auxiliary data length of "@ + spec_decimal_usize(actual)
                + " bytes is not a multiple of 4."@,
            MldBuildError::PayloadLenTooBig =>
                "MLD build error: payload length is too large to be represented on this platform."@,
            MldBuildError::SliceWriteSpace(value) => value.spec_message(),
        }
    }

    /// Returns the text of this error.
    pub fn message(&self) -> (r: String)
        ensures
            r@ == self.spec_message(),
    {
        match self {
            MldBuildError::SourceAddressCountTooBig { actual } => {
                let mut s = String::from_str("MLD build error: ");
                s.append(decimal_usize(*actual).as_str());
                s.append(
                    " source addresses can not be represented by a 16-bit source address count field.",
                );
                s
            },
            MldBuildError::MulticastAddressRecordCountTooBig { actual } => {
                let mut s = String::from_str("MLD build error: ");
                s.append(decimal_usize(*actual).as_str());
                s.append(
                    " multicast address records can not be represented by a 16-bit record count field.",
                );
                s
            },
            MldBuildError::AuxiliaryDataLenTooBig { actual } => {
                let mut s = String::from_str("MLD build error: ");
                s.append(decimal_usize(*actual).as_str());
                s.append(
                    " bytes of auxiliary data can not be represented by an 8-bit auxiliary data length field.",
                );
                s
            },
            MldBuildError::AuxiliaryDataLenUnaligned { actual } => {
                let mut s = String::from_str("MLD build error: auxiliary data length of ");
                s.append(decimal_usize(*actual).as_str());
                s.append(" bytes is not a multiple of 4.");
                s
            },
            MldBuildError::PayloadLenTooBig => String::from_str(
                "MLD build error: payload length is too large to be represented on this platform.",
            ),
            MldBuildError::SliceWriteSpace(value) => value.message(),
        }
    }

    /// Returns the slice write space error if this error is
    /// [`MldBuildError::SliceWriteSpace`].
    pub fn slice_write_space_error(&self) -> (r: Option<&SliceWriteSpaceError>)
        ensures
            match self {
                MldBuildError::SliceWriteSpace(value) => r == Some(value),
                _ => r.is_none(),
            },
    {
        match self {
            MldBuildError::SliceWriteSpace(value) => Some(value),
            _ => None,
        }
    }
}

/// Error while writing MLD payload bytes to an IO writer.
#[derive(Debug)]
pub enum MldIoWriteError {
    /// IO error while writing.
    Io(std::io::Error),
    /// Error while building the MLD payload.
    Build(MldBuildError),
}

impl MldIoWriteError {
    /// Returns the [`std::io::Error`] value if this is an [`MldIoWriteError::Io`].
    pub fn io(&self) -> (r: Option<&std::io::Error>)
        ensures
            match self {
                MldIoWriteError::Io(value) => r == Some(value),
                MldIoWriteError::Build(_) => r.is_none(),
            },
    {
        match self {
            MldIoWriteError::Io(value) => Some(value),
            MldIoWriteError::Build(_) => None,
        }
    }

    /// Returns the [`MldBuildError`] value if this is an [`MldIoWriteError::Build`].
    pub fn build(&self) -> (r: Option<&MldBuildError>)
        ensures
            match self {
                MldIoWriteError::Io(_) => r.is_none(),
                MldIoWriteError::Build(value) => r == Some(value),
            },
    {
        match self {
            MldIoWriteError::Io(_) => None,
            MldIoWriteError::Build(value) => Some(value),
        }
    }
}

impl From<std::io::Error> for MldIoWriteError {
    fn from(value: std::io::Error) -> (r: MldIoWriteError) {
        MldIoWriteError::Io(value)
    }
}

impl vstd::std_specs::convert::FromSpecImpl<std::io::Error> for MldIoWriteError {
    open spec fn obeys_from_spec() -> bool {
        true
    }

    open spec fn from_spec(value: std::io::Error) -> MldIoWriteError {
        MldIoWriteError::Io(value)
    }
}

impl From<MldBuildError> for MldIoWriteError {
    fn from(value: MldBuildError) -> (r: MldIoWriteError) {
        MldIoWriteError::Build(value)
    }
}

impl vstd::std_specs::convert::FromSpecImpl<MldBuildError> for MldIoWriteError {
    open spec fn obeys_from_spec() -> bool {
        true
    }

    open spec fn from_spec(value: MldBuildError) -> MldIoWriteError {
        MldIoWriteError::Build(value)
    }
}

} // verus!
