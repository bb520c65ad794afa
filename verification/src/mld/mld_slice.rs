//! Any MLD message carried in an ICMPv6 message.
use crate::icmpv6::{
    spec_message_len_check, Icmpv6Slice, TYPE_MULTICAST_LISTENER_QUERY,
    TYPE_MULTICAST_LISTENER_REDUCTION, TYPE_MULTICAST_LISTENER_REPORT,
    TYPE_MULTICAST_LISTENER_REPORT_V2,
};
use super::mld_query_slice::{spec_query_parse, MldQuerySlice};
use super::mld_slice_error::MldSliceError;
use super::mldv1_done_slice::Mldv1DoneSlice;
use super::mldv1_query::spec_v1_len_check;
use super::mldv1_report_slice::Mldv1ReportSlice;
use super::mldv2_report_slice::{spec_report_parse, Mldv2ReportSlice};
use vstd::prelude::*;

verus! {

/// The kind of a decoded MLD message.
#[derive(Clone, Copy, Debug, Eq, PartialEq, Hash)]
pub enum MldKind {
    /// MLDv1 Multicast Listener Query.
    QueryV1,
    /// MLDv2 Multicast Listener Query.
    QueryV2,
    /// Version 1 Multicast Listener Report.
    ListenerReportV1,
    /// Version 1 Multicast Listener Done.
    ListenerDoneV1,
    /// Version 2 Multicast Listener Report.
    ListenerReportV2,
}

/// Whether `type_u8` is the ICMPv6 type of an MLD message (130, 131, 132 or 143).
pub open spec fn spec_is_mld_type(type_u8: u8) -> bool {
    type_u8 == TYPE_MULTICAST_LISTENER_QUERY || type_u8 == TYPE_MULTICAST_LISTENER_REPORT
        || type_u8 == TYPE_MULTICAST_LISTENER_REDUCTION || type_u8
        == TYPE_MULTICAST_LISTENER_REPORT_V2
}

/// Outcome of decoding an MLD message from a length-checked ICMPv6 message `s`,
/// selected by its type byte `s[0]`.
pub open spec fn spec_mld_parse(s: Seq<u8>) -> Result<MldKind, MldSliceError> {
    let t = s[0];
    if t == TYPE_MULTICAST_LISTENER_QUERY {
        match spec_query_parse(s) {
            Ok(kind) => Ok(kind),
            Err(e) => Err(MldSliceError::Len(e)),
        }
    } else if t == TYPE_MULTICAST_LISTENER_REPORT {
        match spec_v1_len_check(s) {
            Ok(_) => Ok(MldKind::ListenerReportV1),
            Err(e) => Err(MldSliceError::Len(e)),
        }
    } else if t == TYPE_MULTICAST_LISTENER_REDUCTION {
        match spec_v1_len_check(s) {
            Ok(_) => Ok(MldKind::ListenerDoneV1),
            Err(e) => Err(MldSliceError::Len(e)),
        }
    } else if t == TYPE_MULTICAST_LISTENER_REPORT_V2 {
        match spec_report_parse(s) {
            Ok(_) => Ok(MldKind::ListenerReportV2),
            Err(e) => Err(MldSliceError::Len(e)),
        }
    } else {
        Err(MldSliceError::UnexpectedIcmpv6Type { type_u8: t })
    }
}

/// Outcome of decoding an MLD message from the bytes `s` of a complete ICMPv6 message.
pub open spec fn spec_mld_from_bytes(s: Seq<u8>) -> Result<MldKind, MldSliceError> {
    match spec_message_len_check(s) {
        Ok(_) => spec_mld_parse(s),
        Err(e) => Err(MldSliceError::Len(e)),
    }
}

/// Multicast Listener Discovery (MLD) message slice.
#[derive(Clone, Debug, Eq, PartialEq)]
#[non_exhaustive]
pub enum MldSlice<'a> {
    /// Multicast Listener Query message.
    Query(MldQuerySlice<'a>),
    /// Version 1 Multicast Listener Report message.
    ListenerReportV1(Mldv1ReportSlice<'a>),
    /// Version 1 Multicast Listener Done message.
    ListenerDoneV1(Mldv1DoneSlice<'a>),
    /// Version 2 Multicast Listener Report message.
    ListenerReportV2(Mldv2ReportSlice<'a>),
}

impl<'a> View for MldSlice<'a> {
    type V = Seq<u8>;

    /// The complete ICMPv6 message bytes.
    open spec fn view(&self) -> Seq<u8> {
        match self {
            MldSlice::Query(value) => value@,
            MldSlice::ListenerReportV1(value) => value@,
            MldSlice::ListenerDoneV1(value) => value@,
            MldSlice::ListenerReportV2(value) => value@,
        }
    }
}

impl<'a> MldSlice<'a> {
    /// Which kind of MLD message this is.
    pub open spec fn kind(self) -> MldKind {
        match self {
            MldSlice::Query(value) => value.kind(),
            MldSlice::ListenerReportV1(_) => MldKind::ListenerReportV1,
            MldSlice::ListenerDoneV1(_) => MldKind::ListenerDoneV1,
            MldSlice::ListenerReportV2(_) => MldKind::ListenerReportV2,
        }
    }

    /// Returns true if the given ICMPv6 type value is an MLD message type.
    pub fn is_mld_type_u8(type_u8: u8) -> (r: bool)
        ensures
            r == spec_is_mld_type(type_u8),
    {
        type_u8 == TYPE_MULTICAST_LISTENER_QUERY || type_u8 == TYPE_MULTICAST_LISTENER_REPORT
            || type_u8 == TYPE_MULTICAST_LISTENER_REDUCTION || type_u8
            == TYPE_MULTICAST_LISTENER_REPORT_V2
    }

    /// Decode an MLD message from an ICMPv6 slice.
    pub fn from_icmpv6_slice(slice: &Icmpv6Slice<'a>) -> (r: Result<Self, MldSliceError>)
        ensures
            match spec_mld_parse(slice@) {
                Ok(kind) => r matches Ok(mld) && mld.kind() == kind && mld@ == slice@,
                Err(e) => r == Err::<Self, MldSliceError>(e),
            },
    {
        let type_u8 = slice.type_u8();
        let bytes = slice.slice();
        if type_u8 == TYPE_MULTICAST_LISTENER_QUERY {
            match MldQuerySlice::from_slice(bytes) {
                Ok(value) => Ok(MldSlice::Query(value)),
                Err(e) => Err(MldSliceError::Len(e)),
            }
        } else if type_u8 == TYPE_MULTICAST_LISTENER_REPORT {
            match Mldv1ReportSlice::from_slice(bytes) {
                Ok(value) => Ok(MldSlice::ListenerReportV1(value)),
                Err(e) => Err(MldSliceError::Len(e)),
            }
        } else if type_u8 == TYPE_MULTICAST_LISTENER_REDUCTION {
            match Mldv1DoneSlice::from_slice(bytes) {
                Ok(value) => Ok(MldSlice::ListenerDoneV1(value)),
                Err(e) => Err(MldSliceError::Len(e)),
            }
        } else if type_u8 == TYPE_MULTICAST_LISTENER_REPORT_V2 {
            match Mldv2ReportSlice::from_slice(bytes) {
                Ok(value) => Ok(MldSlice::ListenerReportV2(value)),
                Err(e) => Err(MldSliceError::Len(e)),
            }
        } else {
            Err(MldSliceError::UnexpectedIcmpv6Type { type_u8 })
        }
    }

    /// Decode an MLD message from bytes containing a full ICMPv6 message.
    pub fn from_slice(slice: &'a [u8]) -> (r: Result<Self, MldSliceError>)
        ensures
            match spec_mld_from_bytes(slice@) {
                Ok(kind) => r matches Ok(mld) && mld.kind() == kind && mld@ == slice@,
                Err(e) => r == Err::<Self, MldSliceError>(e),
            },
    {
        match Icmpv6Slice::from_slice(slice) {
            Ok(message) => MldSlice::from_icmpv6_slice(&message),
            Err(e) => Err(MldSliceError::Len(e)),
        }
    }

    /// Returns the complete ICMPv6/MLD message bytes.
    pub fn slice(&self) -> (r: &'a [u8])
        ensures
            r@ == self@,
    {
        match self {
            MldSlice::Query(value) => value.slice(),
            MldSlice::ListenerReportV1(value) => value.slice(),
            MldSlice::ListenerDoneV1(value) => value.slice(),
            MldSlice::ListenerReportV2(value) => value.slice(),
        }
    }
}

impl<'a> Icmpv6Slice<'a> {
    /// Returns true if the type of this ICMPv6 message is an MLD message type.
    pub fn is_mld(&self) -> (r: bool)
        ensures
            r == spec_is_mld_type(self@[0]),
    {
        MldSlice::is_mld_type_u8(self.type_u8())
    }

    /// Decodes this ICMPv6 message as an MLD message.
    pub fn mld_slice(&self) -> (r: Result<MldSlice<'a>, MldSliceError>)
        ensures
            match spec_mld_parse(self@) {
                Ok(kind) => r matches Ok(mld) && mld.kind() == kind && mld@ == self@,
                Err(e) => r == Err::<MldSlice<'a>, MldSliceError>(e),
            },
    {
        MldSlice::from_icmpv6_slice(self)
    }
}

} // verus!
