//! Multicast Listener Discovery (RFC 2710, RFC 3810) messages.
pub mod laws;
pub mod mld_build_error;
pub mod mld_query_slice;
pub mod mld_slice;
pub mod mld_slice_error;
pub mod mld_source_addresses_iterator;
pub mod mldv1_done_slice;
pub mod mldv1_query;
pub mod mldv1_query_slice;
pub mod mldv1_report_slice;
pub mod mldv2_multicast_address_record;
pub mod mldv2_multicast_address_record_slice;
pub mod mldv2_multicast_address_record_type;
pub mod mldv2_multicast_address_records_iterator;
pub mod mldv2_query;
pub mod mldv2_query_slice;
pub mod mldv2_report;
pub mod mldv2_report_slice;

pub use mld_build_error::{MldBuildError, MldIoWriteError};
pub use mld_query_slice::MldQuerySlice;
pub use mld_slice::{MldKind, MldSlice};
pub use mld_slice_error::MldSliceError;
pub use mld_source_addresses_iterator::MldSourceAddressesIterator;
pub use mldv1_done_slice::{Mldv1Done, Mldv1DoneSlice};
pub use mldv1_query::Mldv1Query;
pub use mldv1_query_slice::Mldv1QuerySlice;
pub use mldv1_report_slice::{Mldv1Report, Mldv1ReportSlice};
pub use mldv2_multicast_address_record::Mldv2MulticastAddressRecord;
pub use mldv2_multicast_address_record_slice::Mldv2MulticastAddressRecordSlice;
pub use mldv2_multicast_address_record_type::Mldv2MulticastAddressRecordType;
pub use mldv2_multicast_address_records_iterator::Mldv2MulticastAddressRecordsIterator;
pub use mldv2_query::Mldv2Query;
pub use mldv2_query_slice::Mldv2QuerySlice;
pub use mldv2_report::Mldv2Report;
pub use mldv2_report_slice::Mldv2ReportSlice;

use vstd::prelude::*;

verus! {

/// Largest count that fits in a 16-bit MLD count field.
pub const MLD_MAX_U16_COUNT: usize = 65535;

/// Largest auxiliary data length (in bytes) that fits in the 8-bit word count field.
pub const MLD_MAX_AUXILIARY_DATA_LEN: usize = 1020;

/// Result of checking a number of source addresses against the 16-bit count field.
pub open spec fn spec_source_address_count(len: usize) -> Result<u16, MldBuildError> {
    if len > MLD_MAX_U16_COUNT {
        Err(MldBuildError::SourceAddressCountTooBig { actual: len })
    } else {
        Ok(len as u16)
    }
}

/// Result of checking a number of multicast address records against the 16-bit count field.
pub open spec fn spec_multicast_address_record_count(len: usize) -> Result<u16, MldBuildError> {
    if len > MLD_MAX_U16_COUNT {
        Err(MldBuildError::MulticastAddressRecordCountTooBig { actual: len })
    } else {
        Ok(len as u16)
    }
}

/// Result of converting an auxiliary data length in bytes to the 32-bit word count field.
pub open spec fn spec_auxiliary_data_len(len: usize) -> Result<u8, MldBuildError> {
    if len > MLD_MAX_AUXILIARY_DATA_LEN {
        Err(MldBuildError::AuxiliaryDataLenTooBig { actual: len })
    } else if len % 4 != 0 {
        Err(MldBuildError::AuxiliaryDataLenUnaligned { actual: len })
    } else {
        Ok((len / 4) as u8)
    }
}

/// Checks that `len` source addresses fit in the 16-bit count field.
pub(crate) fn mld_source_address_count(len: usize) -> (r: Result<u16, MldBuildError>)
    ensures
        r == spec_source_address_count(len),
{
    if len > MLD_MAX_U16_COUNT {
        Err(MldBuildError::SourceAddressCountTooBig { actual: len })
    } else {
        Ok(len as u16)
    }
}

/// Checks that `len` multicast address records fit in the 16-bit count field.
pub(crate) fn mld_multicast_address_record_count(len: usize) -> (r: Result<u16, MldBuildError>)
    ensures
        r == spec_multicast_address_record_count(len),
{
    if len > MLD_MAX_U16_COUNT {
        Err(MldBuildError::MulticastAddressRecordCountTooBig { actual: len })
    } else {
        Ok(len as u16)
    }
}

/// Converts an auxiliary data length in bytes to the value of the word count field.
pub(crate) fn mld_auxiliary_data_len(len: usize) -> (r: Result<u8, MldBuildError>)
    ensures
        r == spec_auxiliary_data_len(len),
{
    if len > MLD_MAX_AUXILIARY_DATA_LEN {
        Err(MldBuildError::AuxiliaryDataLenTooBig { actual: len })
    } else if 0 != len % 4 {
        Err(MldBuildError::AuxiliaryDataLenUnaligned { actual: len })
    } else {
        Ok((len / 4) as u8)
    }
}

} // verus!
