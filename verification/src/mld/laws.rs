//! Properties that relate the encoders and the decoders of MLD messages.
use crate::bytes::{addrs_bytes, be_bytes, be_u16, lemma_addrs_bytes, lemma_be_bytes_roundtrip};
use crate::err::{LenError, LenSource, Layer};
use super::mld_build_error::MldBuildError;
use super::mldv2_multicast_address_record::Mldv2MulticastAddressRecord;
use super::mldv2_multicast_address_record_slice::{spec_record_len, spec_record_parse};
use super::mldv2_multicast_address_records_iterator::{spec_record_offset, spec_records_parse};
use super::mldv2_report::{
    lemma_records_payload_len, spec_records_bytes, spec_records_payload_len, Mldv2Report,
};
use super::{spec_auxiliary_data_len, spec_multicast_address_record_count, spec_source_address_count};
use super::mldv2_query::{spec_flags_byte, Mldv2Query};
use super::mldv2_query_slice::spec_query_v2_parse;
use super::mld_slice::{spec_is_mld_type, spec_mld_from_bytes, MldKind};
use super::mldv1_query::Mldv1Query;
use super::mldv2_report_slice::{spec_report_parse, spec_report_records_len};
use super::mldv2_multicast_address_records_iterator::{
    lemma_records_count_unique, lemma_records_parse_bounds, lemma_records_parse_err_stable,
    spec_record_state, spec_record_step,
};
use super::mld_source_addresses_iterator::{spec_source_state, spec_source_step};
use super::mldv2_multicast_address_record_slice::lemma_record_parse_bounds;
use super::mld_slice_error::MldSliceError;
use crate::icmpv6::{spec_message_len_check, Icmpv6Header, Icmpv6Type, MAX_MESSAGE_LEN};
use vstd::prelude::*;

verus! {

/// An encoded multicast address record decodes, whatever bytes follow it, to a record
/// of the encoded length whose fields are the ones that were encoded.
pub proof fn law_record_roundtrip(record: Mldv2MulticastAddressRecord, rest: Seq<u8>)
    requires
        record.spec_record_len() is Ok,
    ensures
        ({
            let bytes = record.spec_bytes();
            let s = bytes + rest;
            let n = record.source_addresses@.len() as int;
            &&& spec_record_parse(s) == Ok::<int, LenError>(bytes.len() as int)
            &&& record.spec_record_len() == Ok::<usize, MldBuildError>(bytes.len() as usize)
            &&& s[0] == record.record_type.0
            &&& s[1] * 4 == record.auxiliary_data@.len()
            &&& be_u16(s, 2) == n
            &&& s.subrange(4, 20) == record.multicast_address@
            &&& s.subrange(20, 20 + 16 * n) == addrs_bytes(record.source_addresses@)
            &&& s.subrange(20 + 16 * n, bytes.len() as int) == record.auxiliary_data@
            &&& forall|i: int|
                0 <= i < n ==> s.subrange(20 + 16 * i, 36 + 16 * i)
                    == (#[trigger] record.source_addresses@[i])@
        }),
{
    let bytes = record.spec_bytes();
    let s = bytes + rest;
    let n = record.source_addresses@.len() as int;
    let a = record.auxiliary_data@.len() as int;
    record.lemma_bytes_len();
    lemma_addrs_bytes(record.source_addresses@);
    let head = seq![record.record_type.0, (a / 4) as u8];
    let tail = record.multicast_address@ + addrs_bytes(record.source_addresses@)
        + record.auxiliary_data@ + rest;
    assert(s =~= head + be_bytes(n as u16) + tail);
    lemma_be_bytes_roundtrip(n as u16, head, tail);
    assert(s[1] == (a / 4) as u8);
    assert(s.subrange(4, 20) =~= record.multicast_address@);
    assert(s.subrange(20, 20 + 16 * n) =~= addrs_bytes(record.source_addresses@));
    assert(s.subrange(20 + 16 * n, bytes.len() as int) =~= record.auxiliary_data@);
    assert(spec_record_len(s) == bytes.len());
    assert forall|i: int| 0 <= i < n implies s.subrange(20 + 16 * i, 36 + 16 * i)
        == (#[trigger] record.source_addresses@[i])@ by {
        assert(s.subrange(20 + 16 * i, 36 + 16 * i) =~= addrs_bytes(
            record.source_addresses@,
        ).subrange(16 * i, 16 * i + 16));
    }
}

/// The encoding of records is the encoding of a prefix followed by that of the rest.
pub proof fn lemma_records_bytes_split(records: Seq<Mldv2MulticastAddressRecord>, k: int)
    requires
        0 <= k <= records.len(),
    ensures
        spec_records_bytes(records) == spec_records_bytes(records.subrange(0, k))
            + spec_records_bytes(records.subrange(k, records.len() as int)),
    decreases records.len(),
{
    if k == records.len() {
        assert(records.subrange(0, k) =~= records);
        assert(records.subrange(k, records.len() as int).len() == 0);
        assert(spec_records_bytes(records) + Seq::<u8>::empty() =~= spec_records_bytes(records));
    } else {
        let init = records.drop_last();
        lemma_records_bytes_split(init, k);
        assert(init.subrange(0, k) =~= records.subrange(0, k));
        let tail = records.subrange(k, records.len() as int);
        assert(tail.drop_last() =~= init.subrange(k, init.len() as int));
        assert(tail.last() == records.last());
    }
}

/// Decoding the first `k` records of encoded records, whatever follows them, takes the
/// bytes of the first `k` encodings.
proof fn lemma_records_decode_prefix(
    records: Seq<Mldv2MulticastAddressRecord>,
    extra: Seq<u8>,
    k: nat,
)
    requires
        k <= records.len(),
        forall|i: int| 0 <= i < records.len() ==> (#[trigger] records[i]).spec_record_len() is Ok,
    ensures
        spec_records_parse(spec_records_bytes(records) + extra, k) == Ok::<int, (int, LenError)>(
            spec_records_bytes(records.subrange(0, k as int)).len() as int,
        ),
    decreases k,
{
    if k > 0 {
        let m = (k - 1) as nat;
        lemma_records_decode_prefix(records, extra, m);
        let s = spec_records_bytes(records) + extra;
        let before = records.subrange(0, m as int);
        let upto = records.subrange(0, k as int);
        let record = records[m as int];
        assert(upto.drop_last() =~= before);
        assert(upto.last() == record);
        lemma_records_bytes_split(records, k as int);
        let after = spec_records_bytes(records.subrange(k as int, records.len() as int)) + extra;
        let off = spec_records_bytes(before).len() as int;
        assert(s.subrange(off, s.len() as int) =~= record.spec_bytes() + after);
        law_record_roundtrip(record, after);
    }
}

/// The payload of an encodable report decodes, whatever follows it, to exactly as many
/// records as were encoded, and record `i` covers the encoding of record `i`.
pub proof fn law_report_payload_decodes(report: Mldv2Report, extra: Seq<u8>)
    requires
        report.spec_payload_len() is Ok,
    ensures
        ({
            let records = report.multicast_address_records@;
            let payload = report.spec_payload();
            &&& report.spec_payload_len() == Ok::<usize, MldBuildError>(payload.len() as usize)
            &&& spec_records_parse(payload + extra, records.len()) == Ok::<int, (int, LenError)>(
                payload.len() as int,
            )
            &&& spec_records_parse(payload, records.len()) == Ok::<int, (int, LenError)>(
                payload.len() as int,
            )
            &&& forall|i: int|
                0 <= i < records.len() ==> payload.subrange(
                    spec_record_offset(payload, i as nat),
                    spec_record_offset(payload, (i + 1) as nat),
                ) == (#[trigger] records[i]).spec_bytes()
        }),
{
    let records = report.multicast_address_records@;
    let payload = report.spec_payload();
    lemma_records_payload_len(records);
    assert(records.subrange(0, records.len() as int) =~= records);
    lemma_records_decode_prefix(records, extra, records.len());
    assert(payload + Seq::<u8>::empty() =~= payload);
    lemma_records_decode_prefix(records, Seq::<u8>::empty(), records.len());
    assert forall|i: int| 0 <= i < records.len() implies payload.subrange(
        spec_record_offset(payload, i as nat),
        spec_record_offset(payload, (i + 1) as nat),
    ) == (#[trigger] records[i]).spec_bytes() by {
        lemma_records_decode_prefix(records, Seq::<u8>::empty(), i as nat);
        lemma_records_decode_prefix(records, Seq::<u8>::empty(), (i + 1) as nat);
        let upto = records.subrange(0, i + 1);
        assert(upto.drop_last() =~= records.subrange(0, i));
        assert(upto.last() == records[i]);
        lemma_records_bytes_split(records, i + 1);
        lemma_records_bytes_prefix_bound(records, i + 1);
    }
}

/// The encoding of a prefix of the records is a prefix of the encoding of all records.
proof fn lemma_records_bytes_prefix_bound(records: Seq<Mldv2MulticastAddressRecord>, k: int)
    requires
        0 <= k <= records.len(),
    ensures
        spec_records_bytes(records).subrange(0, spec_records_bytes(records.subrange(0, k)).len() as int)
            == spec_records_bytes(records.subrange(0, k)),
{
    lemma_records_bytes_split(records, k);
    let p = spec_records_bytes(records.subrange(0, k));
    assert(spec_records_bytes(records).subrange(0, p.len() as int) =~= p);
}

/// The 16 bytes of `s` starting at `start`.
pub open spec fn bytes16_at(s: Seq<u8>, start: int) -> Seq<u8> {
    s.subrange(start, start + 16)
}

/// Offset of the first byte after the source addresses of an encoded MLDv2 query
/// message (8 header bytes, 20 fixed payload bytes, 16 bytes per source).
pub open spec fn spec_query_sources_end(query: Mldv2Query) -> int {
    28 + 16 * query.source_addresses@.len() as int
}

/// The S flag and the QRV are read back from the flags byte as they were written,
/// keeping the low three bits of the robustness variable, and the four reserved high
/// bits of the byte are zero.
pub proof fn lemma_flags_byte(suppress: bool, robustness: u8)
    ensures
        (spec_flags_byte(suppress, robustness) & 8 != 0) == suppress,
        spec_flags_byte(suppress, robustness) & 7 == robustness & 7,
        spec_flags_byte(suppress, robustness) & 0xf0 == 0,
        spec_flags_byte(suppress, robustness) < 16,
{
    assert(((8u8 | (robustness & 7u8)) & 8u8) != 0u8) by (bit_vector);
    assert(((8u8 | (robustness & 7u8)) & 7u8) == robustness & 7u8) by (bit_vector);
    assert(((8u8 | (robustness & 7u8)) & 0xf0u8) == 0u8) by (bit_vector);
    assert((8u8 | (robustness & 7u8)) < 16u8) by (bit_vector);
    assert(((0u8 | (robustness & 7u8)) & 8u8) == 0u8) by (bit_vector);
    assert(((0u8 | (robustness & 7u8)) & 7u8) == robustness & 7u8) by (bit_vector);
    assert(((0u8 | (robustness & 7u8)) & 0xf0u8) == 0u8) by (bit_vector);
    assert((0u8 | (robustness & 7u8)) < 16u8) by (bit_vector);
}

/// Where the fields of an encoded MLDv2 query payload land after an 8-byte header.
proof fn lemma_query_payload_fields(query: Mldv2Query, header: Seq<u8>, extra: Seq<u8>)
    requires
        query.spec_payload_len() is Ok,
        header.len() == 8,
    ensures
        ({
            let packet = header + query.spec_payload() + extra;
            let n = query.source_addresses@.len() as int;
            &&& packet.len() == 28 + 16 * n + extra.len()
            &&& packet.subrange(0, 8) == header
            &&& packet.subrange(8, 24) == query.multicast_address@
            &&& packet[24] == spec_flags_byte(
                query.suppress_router_side_processing,
                query.querier_robustness_variable,
            )
            &&& packet[25] == query.querier_query_interval_code
            &&& be_u16(packet, 26) == n
            &&& forall|i: int|
                0 <= i < n ==> bytes16_at(packet, 28 + 16 * i)
                    == (#[trigger] query.source_addresses@[i])@
            &&& packet.subrange(28 + 16 * n, packet.len() as int) == extra
        }),
{
    let packet = header + query.spec_payload() + extra;
    let n = query.source_addresses@.len() as int;
    query.lemma_payload_len();
    lemma_addrs_bytes(query.source_addresses@);
    let flags = spec_flags_byte(query.suppress_router_side_processing, query.querier_robustness_variable);
    let head = header + query.multicast_address@ + seq![flags, query.querier_query_interval_code];
    let tail = addrs_bytes(query.source_addresses@) + extra;
    assert(packet =~= head + be_bytes(n as u16) + tail);
    lemma_be_bytes_roundtrip(n as u16, head, tail);
    assert(packet.subrange(0, 8) =~= header);
    assert(packet.subrange(8, 24) =~= query.multicast_address@);
    assert(packet.subrange(28 + 16 * n, packet.len() as int) =~= extra);
    assert forall|i: int| 0 <= i < n implies bytes16_at(packet, 28 + 16 * i)
        == (#[trigger] query.source_addresses@[i])@ by {
        assert(bytes16_at(packet, 28 + 16 * i) =~= addrs_bytes(query.source_addresses@).subrange(
            16 * i,
            16 * i + 16,
        ));
    }
}

/// An MLDv2 query written with [`Mldv2Query::write_to_vec`] after the ICMPv6 header of
/// [`Mldv2Query::icmpv6_type`] (with any checksum) decodes, whatever data follows, as an
/// MLDv2 query with the fields that were written; only the low three bits of the
/// robustness variable are kept, and the data after the sources is the additional data.
pub proof fn law_mldv2_query_roundtrip(query: Mldv2Query, checksum: u16, extra: Seq<u8>)
    requires
        query.spec_payload_len() is Ok,
        8 + query.spec_payload().len() + extra.len() <= MAX_MESSAGE_LEN,
    ensures
        ({
            let header = Icmpv6Header {
                icmp_type: Icmpv6Type::spec_multicast_listener_query(query.maximum_response_code),
                checksum,
            };
            let packet = header.spec_bytes() + query.spec_payload() + extra;
            &&& spec_mld_from_bytes(packet) == Ok::<MldKind, MldSliceError>(MldKind::QueryV2)
            &&& be_u16(packet, 4) == query.maximum_response_code
            &&& be_u16(packet, 6) == 0
            &&& packet.subrange(8, 24) == query.multicast_address@
            &&& packet[0] == 130
            &&& packet[1] == 0
            &&& be_u16(packet, 2) == checksum
            &&& (packet[24] & 8 != 0) == query.suppress_router_side_processing
            &&& packet[24] & 7 == query.querier_robustness_variable & 7
            &&& packet[24] & 0xf0 == 0
            &&& packet[25] == query.querier_query_interval_code
            &&& be_u16(packet, 26) == query.source_addresses@.len()
            &&& forall|i: int|
                0 <= i < query.source_addresses@.len() ==> bytes16_at(packet, 28 + 16 * i)
                    == (#[trigger] query.source_addresses@[i])@
            &&& packet.skip(spec_query_sources_end(query)) == extra
        }),
{
    let header = Icmpv6Header {
        icmp_type: Icmpv6Type::spec_multicast_listener_query(query.maximum_response_code),
        checksum,
    };
    let h = header.spec_bytes();
    let packet = h + query.spec_payload() + extra;
    lemma_query_payload_fields(query, h, extra);
    lemma_flags_byte(query.suppress_router_side_processing, query.querier_robustness_variable);
    assert(h.len() == 8);
    assert(packet[0] == h[0] && packet[1] == h[1] && packet[2] == h[2] && packet[3] == h[3]);
    assert(packet[4] == h[4] && packet[5] == h[5] && packet[6] == h[6] && packet[7] == h[7]);
    assert(spec_query_v2_parse(packet) is Ok);
}

/// Where an encoded MLDv2 report payload lands after an 8-byte header that announces
/// its number of records.
proof fn lemma_report_payload_fields(report: Mldv2Report, header: Seq<u8>, extra: Seq<u8>)
    requires
        report.spec_payload_len() is Ok,
        header.len() == 8,
        be_u16(header, 6) == report.multicast_address_records@.len(),
    ensures
        ({
            let payload = report.spec_payload();
            let packet = header + payload + extra;
            let pl = payload.len() as int;
            &&& spec_report_parse(packet) == Ok::<int, LenError>(pl)
            &&& spec_report_records_len(packet) == payload.len()
            &&& be_u16(packet, 6) == report.multicast_address_records@.len()
            &&& packet.subrange(0, 8) == header
            &&& packet.subrange(8, 8 + pl) == payload
            &&& packet.subrange(8 + pl, packet.len() as int) == extra
        }),
{
    let payload = report.spec_payload();
    let packet = header + payload + extra;
    let pl = payload.len() as int;
    law_report_payload_decodes(report, extra);
    assert(packet[6] == header[6] && packet[7] == header[7]);
    assert(packet.subrange(8, packet.len() as int) =~= payload + extra);
    assert(packet.subrange(0, 8) =~= header);
    assert(packet.subrange(8, 8 + pl) =~= payload);
    assert(packet.subrange(8 + pl, packet.len() as int) =~= extra);
}

/// An MLDv2 report written with [`Mldv2Report::write_to_vec`] after the ICMPv6 header of
/// [`Mldv2Report::icmpv6_type`] (with any checksum, `count` being the number of records)
/// decodes, whatever data follows, as an MLDv2 report whose record bytes are the
/// written payload and whose additional data is what follows it.
pub proof fn law_mldv2_report_roundtrip(report: Mldv2Report, count: u16, checksum: u16, extra: Seq<u8>)
    requires
        report.spec_payload_len() is Ok,
        count == report.multicast_address_records@.len(),
        8 + report.spec_payload().len() + extra.len() <= MAX_MESSAGE_LEN,
    ensures
        ({
            let header = Icmpv6Header {
                icmp_type: Icmpv6Type::spec_multicast_listener_report_v2(count),
                checksum,
            };
            let packet = header.spec_bytes() + report.spec_payload() + extra;
            let records_end = 8 + spec_report_records_len(packet);
            &&& spec_mld_from_bytes(packet) == Ok::<MldKind, MldSliceError>(MldKind::ListenerReportV2)
            &&& packet[0] == 143
            &&& packet[1] == 0
            &&& be_u16(packet, 2) == checksum
            &&& be_u16(packet, 4) == 0
            &&& be_u16(packet, 6) == count
            &&& packet.subrange(8, records_end) == report.spec_payload()
            &&& packet.skip(records_end) == extra
        }),
{
    let header = Icmpv6Header {
        icmp_type: Icmpv6Type::spec_multicast_listener_report_v2(count),
        checksum,
    };
    let h = header.spec_bytes();
    assert(h.len() == 8);
    assert(be_u16(h, 6) == count);
    lemma_report_payload_fields(report, h, extra);
    let packet = h + report.spec_payload() + extra;
    assert(packet[0] == h[0] && packet[1] == h[1] && packet[2] == h[2] && packet[3] == h[3]);
    assert(packet[4] == h[4] && packet[5] == h[5]);
}

/// An MLDv1 query written as the ICMPv6 header of [`Mldv1Query::icmpv6_type`] (with any
/// checksum) followed by [`Mldv1Query::to_bytes`] decodes as an MLDv1 query with the
/// written maximum response delay and multicast address.
pub proof fn law_mldv1_query_roundtrip(query: Mldv1Query, checksum: u16)
    ensures
        ({
            let header = Icmpv6Header {
                icmp_type: Icmpv6Type::spec_multicast_listener_query(query.maximum_response_delay),
                checksum,
            };
            let packet = header.spec_bytes() + query.multicast_address@;
            &&& spec_mld_from_bytes(packet) == Ok::<MldKind, MldSliceError>(MldKind::QueryV1)
            &&& packet[0] == 130
            &&& packet[1] == 0
            &&& be_u16(packet, 2) == checksum
            &&& be_u16(packet, 4) == query.maximum_response_delay
            &&& be_u16(packet, 6) == 0
            &&& packet.subrange(8, 24) == query.multicast_address@
        }),
{
    let header = Icmpv6Header {
        icmp_type: Icmpv6Type::spec_multicast_listener_query(query.maximum_response_delay),
        checksum,
    };
    let h = header.spec_bytes();
    let packet = h + query.multicast_address@;
    assert(h.len() == 8);
    assert(packet[0] == h[0] && packet[1] == h[1] && packet[2] == h[2] && packet[3] == h[3]);
    assert(packet[4] == h[4] && packet[5] == h[5] && packet[6] == h[6] && packet[7] == h[7]);
    assert(packet.subrange(8, 24) =~= query.multicast_address@);
}

/// A Version 1 report or done message (type 131 or 132) made of any ICMPv6 header, a
/// multicast address and any further data decodes as that message, with the multicast
/// address at bytes 8 to 24 and the further data as additional data.
pub proof fn law_mldv1_listener_roundtrip(
    header: Icmpv6Header,
    multicast_address: [u8; 16],
    extra: Seq<u8>,
)
    requires
        header.spec_bytes()[0] == 131 || header.spec_bytes()[0] == 132,
        24 + extra.len() <= MAX_MESSAGE_LEN,
    ensures
        ({
            let packet = header.spec_bytes() + multicast_address@ + extra;
            &&& spec_mld_from_bytes(packet) == Ok::<MldKind, MldSliceError>(
                if header.spec_bytes()[0] == 131 {
                    MldKind::ListenerReportV1
                } else {
                    MldKind::ListenerDoneV1
                },
            )
            &&& packet.subrange(8, 24) == multicast_address@
            &&& packet.skip(24) == extra
        }),
{
    let h = header.spec_bytes();
    let packet = h + multicast_address@ + extra;
    assert(h.len() == 8);
    assert(packet[0] == h[0]);
    assert(packet.subrange(8, 24) =~= multicast_address@);
    assert(packet.skip(24) =~= extra);
}

/// A message of valid ICMPv6 length is refused as "unexpected ICMPv6 type" exactly when
/// its type is not one of the four MLD types; messages of an MLD type only fail on their
/// length.
pub proof fn law_type_selects_mld(s: Seq<u8>)
    requires
        spec_message_len_check(s) is Ok,
    ensures
        !spec_is_mld_type(s[0]) ==> spec_mld_from_bytes(s) == Err::<MldKind, MldSliceError>(
            MldSliceError::UnexpectedIcmpv6Type { type_u8: s[0] },
        ),
        spec_is_mld_type(s[0]) ==> (spec_mld_from_bytes(s) is Ok || spec_mld_from_bytes(s)->Err_0 is Len),
{
}

/// The number of records that exactly fill the record bytes of a decodable report is
/// the announced record count (so the record iterator returns that many records).
pub proof fn law_report_record_count(s: Seq<u8>, m: nat)
    requires
        spec_report_parse(s) is Ok,
        spec_records_parse(s.subrange(8, 8 + spec_report_records_len(s)), m) == Ok::<
            int,
            (int, LenError),
        >(spec_report_records_len(s)),
    ensures
        m == be_u16(s, 6),
{
    let records = s.subrange(8, s.len() as int);
    let n = be_u16(s, 6) as nat;
    let l = spec_report_records_len(s);
    super::mldv2_report_slice::lemma_records_prefix(records, n, l);
    assert(records.subrange(0, l) =~= s.subrange(8, 8 + l));
    lemma_records_count_unique(s.subrange(8, 8 + l), m, n);
}

/// A length error describes a layer that is shorter than required: it counts the bytes
/// available from the layer start, which is `offset` bytes into the decoded bytes.
pub open spec fn spec_short_layer(e: LenError, total_len: int) -> bool {
    &&& e.len < e.required_len
    &&& e.len + e.layer_start_offset == total_len
    &&& e.len_source == LenSource::Slice
    &&& e.layer == Layer::Icmpv6
}

/// A failing record of a record list is reported at its offset with the bytes left
/// from there.
proof fn lemma_records_error_shape(s: Seq<u8>, n: nat)
    requires
        s.len() <= MAX_MESSAGE_LEN,
    ensures
        spec_records_parse(s, n) matches Err((off, e)) ==> 0 <= off <= s.len()
            && e.layer_start_offset == 0 && spec_short_layer(e, s.len() - off),
    decreases n,
{
    if n > 0 {
        let m = (n - 1) as nat;
        lemma_records_error_shape(s, m);
        super::mldv2_multicast_address_records_iterator::lemma_records_parse_bounds(s, m);
    }
}

/// Every length error of the MLD decoder reports a layer that is shorter than required,
/// and the bytes it counts reach exactly to the end of the message.
pub proof fn law_len_error_shape(s: Seq<u8>)
    requires
        s.len() <= MAX_MESSAGE_LEN,
    ensures
        spec_mld_from_bytes(s) matches Err(MldSliceError::Len(e)) ==> spec_short_layer(
            e,
            s.len() as int,
        ),
{
    if s.len() >= 8 {
        let records = s.subrange(8, s.len() as int);
        lemma_records_error_shape(records, be_u16(s, 6) as nat);
    }
}

/// Successive calls of `next` on a source address iterator over bytes whose length is a
/// multiple of 16: call `i` (counting from 0) returns address `i`, that is bytes
/// `16 * i` to `16 * i + 16`, while `i < len / 16`; every later call returns `None` and
/// leaves nothing to return.
pub proof fn law_source_addresses_calls(bytes: Seq<u8>, i: nat)
    requires
        bytes.len() % 16 == 0,
    ensures
        i <= bytes.len() / 16 ==> spec_source_state(bytes, i) == bytes.subrange(
            16 * (i as int),
            bytes.len() as int,
        ),
        i < bytes.len() / 16 ==> spec_source_step(spec_source_state(bytes, i)).0 == Some(
            bytes.subrange(16 * (i as int), 16 * (i as int) + 16),
        ),
        i >= bytes.len() / 16 ==> spec_source_state(bytes, i).len() == 0 && spec_source_step(
            spec_source_state(bytes, i),
        ).0 is None,
    decreases i,
{
    let k = bytes.len() / 16;
    assert(bytes.len() == 16 * k) by (nonlinear_arith)
        requires
            bytes.len() % 16 == 0,
            k == bytes.len() / 16,
    ;
    if i == 0 {
        assert(bytes.subrange(0, bytes.len() as int) =~= bytes);
    } else {
        let j = (i - 1) as nat;
        law_source_addresses_calls(bytes, j);
        let prev = spec_source_state(bytes, j);
        if j < k {
            assert(prev.subrange(16, prev.len() as int) =~= bytes.subrange(
                16 * (i as int),
                bytes.len() as int,
            ));
        }
    }
    let state = spec_source_state(bytes, i);
    if i < k {
        assert(state.subrange(0, 16) =~= bytes.subrange(16 * (i as int), 16 * (i as int) + 16));
    }
}

/// Where the calls of `next` stand on record bytes that consist of exactly `m` records.
proof fn lemma_record_calls(records: Seq<u8>, m: nat, i: nat)
    requires
        spec_records_parse(records, m) == Ok::<int, (int, LenError)>(records.len() as int),
    ensures
        i <= m ==> spec_records_parse(records, i) is Ok,
        i <= m ==> spec_record_state(records, i) == records.subrange(
            spec_record_offset(records, i),
            records.len() as int,
        ),
        i < m ==> spec_record_parse(spec_record_state(records, i)) == Ok::<int, LenError>(
            spec_record_offset(records, i + 1) - spec_record_offset(records, i),
        ),
        i < m ==> spec_record_step(spec_record_state(records, i)).0 == Some(
            records.subrange(spec_record_offset(records, i), spec_record_offset(records, i + 1)),
        ),
        i >= m ==> spec_record_state(records, i).len() == 0 && spec_record_step(
            spec_record_state(records, i),
        ).0 is None,
    decreases i,
{
    if i <= m && spec_records_parse(records, i) is Err {
        lemma_records_parse_err_stable(records, i, m);
    }
    if i < m {
        let n = (i + 1) as nat;
        if spec_records_parse(records, n) is Err {
            lemma_records_parse_err_stable(records, n, m);
        }
    }
    lemma_records_parse_bounds(records, i);
    if i == 0 {
        assert(records.subrange(0, records.len() as int) =~= records);
    } else {
        let j = (i - 1) as nat;
        lemma_record_calls(records, m, j);
        if j < m {
            let prev = spec_record_state(records, j);
            let a = spec_record_offset(records, j);
            let b = spec_record_offset(records, i);
            lemma_record_parse_bounds(prev);
            lemma_records_parse_bounds(records, j);
            assert(spec_record_parse(prev) == Ok::<int, LenError>(b - a));
            assert(0 <= a <= b <= records.len());
            assert(prev.subrange(b - a, prev.len() as int) =~= records.subrange(
                b,
                records.len() as int,
            ));
        }
    }
    if i < m {
        let state = spec_record_state(records, i);
        let a = spec_record_offset(records, i);
        let b = spec_record_offset(records, i + 1);
        lemma_record_parse_bounds(state);
        assert(state.subrange(0, b - a) =~= records.subrange(a, b));
    }
    if i >= m {
        assert(spec_record_offset(records, m) == records.len());
    }
}

/// Successive calls of `next` on the record iterator of a decoded report: with `m` the
/// announced record count, call `i < m` (counting from 0) returns the record decoded
/// from the bytes left by the earlier calls, which covers bytes `spec_record_offset(i)`
/// to `spec_record_offset(i + 1)` of the record bytes; these records start at offset 0
/// and end at the end of the record bytes, so together they are the record bytes. Every
/// later call returns `None`.
pub proof fn law_report_records_calls(s: Seq<u8>, i: nat)
    requires
        spec_report_parse(s) is Ok,
    ensures
        ({
            let records = s.subrange(8, 8 + spec_report_records_len(s));
            let m = be_u16(s, 6) as nat;
            &&& spec_record_offset(records, 0) == 0
            &&& spec_record_offset(records, m) == records.len()
            &&& i <= m ==> spec_record_state(records, i) == records.subrange(
                spec_record_offset(records, i),
                records.len() as int,
            )
            &&& i < m ==> spec_record_parse(spec_record_state(records, i)) == Ok::<int, LenError>(
                spec_record_offset(records, i + 1) - spec_record_offset(records, i),
            )
            &&& i < m ==> spec_record_step(spec_record_state(records, i)).0 == Some(
                records.subrange(spec_record_offset(records, i), spec_record_offset(records, i + 1)),
            )
            &&& i >= m ==> spec_record_state(records, i).len() == 0 && spec_record_step(
                spec_record_state(records, i),
            ).0 is None
        }),
{
    let all = s.subrange(8, s.len() as int);
    let m = be_u16(s, 6) as nat;
    let l = spec_report_records_len(s);
    let records = s.subrange(8, 8 + l);
    super::mldv2_report_slice::lemma_records_prefix(all, m, l);
    assert(all.subrange(0, l) =~= records);
    lemma_record_calls(records, m, i);
}

/// A number of sources or of records fits its 16-bit count field exactly when it is at
/// most 65535 (zero included), and the count written is then the number itself; a
/// larger number is refused with an error that carries it.
pub proof fn law_counts_fit_u16(len: usize)
    ensures
        len <= 65535 ==> (spec_source_address_count(len) matches Ok(c) && c == len),
        len <= 65535 ==> (spec_multicast_address_record_count(len) matches Ok(c) && c == len),
        len > 65535 ==> spec_source_address_count(len) == Err::<u16, MldBuildError>(
            MldBuildError::SourceAddressCountTooBig { actual: len },
        ),
        len > 65535 ==> spec_multicast_address_record_count(len) == Err::<u16, MldBuildError>(
            MldBuildError::MulticastAddressRecordCountTooBig { actual: len },
        ),
{
}

/// Auxiliary data fits the 8-bit word count field exactly when its length is a multiple
/// of 4 of at most 1020 bytes, and the field then holds the length divided by 4; a
/// longer length is refused as too big, a shorter unaligned one as unaligned.
pub proof fn law_auxiliary_data_len(len: usize)
    ensures
        len <= 1020 && len % 4 == 0 ==> (spec_auxiliary_data_len(len) matches Ok(w) && 4 * w
            == len),
        len > 1020 ==> spec_auxiliary_data_len(len) == Err::<u8, MldBuildError>(
            MldBuildError::AuxiliaryDataLenTooBig { actual: len },
        ),
        len <= 1020 && len % 4 != 0 ==> spec_auxiliary_data_len(len) == Err::<u8, MldBuildError>(
            MldBuildError::AuxiliaryDataLenUnaligned { actual: len },
        ),
{
}

/// Every MLDv2 query whose number of sources fits the 16-bit field (a general query
/// without sources included) can be encoded: its payload is the multicast address, the
/// flags byte (reserved high bits zero, S flag, low three bits of the QRV), the QQIC,
/// the number of sources and the sources, 20 bytes plus 16 per source. A query with
/// more sources is refused with an error that carries their number.
pub proof fn law_query_payload(query: Mldv2Query)
    ensures
        query.source_addresses@.len() > 65535 ==> query.spec_payload_len() == Err::<
            usize,
            MldBuildError,
        >(MldBuildError::SourceAddressCountTooBig { actual: query.source_addresses.len() }),
        query.source_addresses@.len() <= 65535 ==> ({
            let p = query.spec_payload();
            let n = query.source_addresses@.len() as int;
            &&& (query.spec_payload_len() matches Ok(len) && len == p.len())
            &&& p.len() == 20 + 16 * n
            &&& p.subrange(0, 16) == query.multicast_address@
            &&& p[16] & 0xf0 == 0
            &&& (p[16] & 8 != 0) == query.suppress_router_side_processing
            &&& p[16] & 7 == query.querier_robustness_variable & 7
            &&& p[17] == query.querier_query_interval_code
            &&& be_u16(p, 18) == n
            &&& forall|i: int|
                0 <= i < n ==> bytes16_at(p, 20 + 16 * i) == (#[trigger] query.source_addresses@[i])@
        }),
{
    let n = query.source_addresses@.len() as int;
    if n <= 65535 {
        let p = query.spec_payload();
        assert(query.spec_payload_len() is Ok);
        query.lemma_payload_len();
        lemma_addrs_bytes(query.source_addresses@);
        let flags = spec_flags_byte(
            query.suppress_router_side_processing,
            query.querier_robustness_variable,
        );
        lemma_flags_byte(query.suppress_router_side_processing, query.querier_robustness_variable);
        let head = query.multicast_address@ + seq![flags, query.querier_query_interval_code];
        let tail = addrs_bytes(query.source_addresses@);
        assert(p =~= head + be_bytes(n as u16) + tail);
        lemma_be_bytes_roundtrip(n as u16, head, tail);
        assert(p[16] == flags);
        assert(p[17] == query.querier_query_interval_code);
        assert(p.subrange(0, 16) =~= query.multicast_address@);
        assert forall|i: int| 0 <= i < n implies bytes16_at(p, 20 + 16 * i)
            == (#[trigger] query.source_addresses@[i])@ by {
            assert(bytes16_at(p, 20 + 16 * i) =~= tail.subrange(16 * i, 16 * i + 16));
        }
    }
}

/// A multicast address record can be encoded, whatever its record type, exactly when
/// its number of sources fits 16 bits and its auxiliary data is a multiple of 4 bytes
/// of at most 1020 bytes; it then takes 20 bytes plus 16 per source plus the auxiliary
/// data. Otherwise the first of these checks that fails, in this order, gives the error.
pub proof fn law_record_len(record: Mldv2MulticastAddressRecord)
    ensures
        ({
            let n = record.source_addresses@.len();
            let a = record.auxiliary_data@.len();
            &&& n <= 65535 && a <= 1020 && a % 4 == 0 ==> (record.spec_record_len() matches Ok(
                len,
            ) && len == 20 + 16 * n + a)
            &&& n > 65535 ==> record.spec_record_len() == Err::<usize, MldBuildError>(
                MldBuildError::SourceAddressCountTooBig { actual: record.source_addresses.len() },
            )
            &&& n <= 65535 && a > 1020 ==> record.spec_record_len() == Err::<usize, MldBuildError>(
                MldBuildError::AuxiliaryDataLenTooBig { actual: record.auxiliary_data.len() },
            )
            &&& n <= 65535 && a <= 1020 && a % 4 != 0 ==> record.spec_record_len() == Err::<
                usize,
                MldBuildError,
            >(MldBuildError::AuxiliaryDataLenUnaligned { actual: record.auxiliary_data.len() })
        }),
{
}

/// Encodable records whose encodings fit in `usize` together have that total length.
proof fn lemma_records_payload_len_ok(records: Seq<Mldv2MulticastAddressRecord>)
    requires
        forall|i: int| 0 <= i < records.len() ==> (#[trigger] records[i]).spec_record_len() is Ok,
        spec_records_bytes(records).len() <= usize::MAX,
    ensures
        spec_records_payload_len(records) == Ok::<int, MldBuildError>(
            spec_records_bytes(records).len() as int,
        ),
    decreases records.len(),
{
    if records.len() > 0 {
        let init = records.drop_last();
        assert forall|i: int| 0 <= i < init.len() implies (#[trigger] init[i]).spec_record_len() is Ok by {
            assert(init[i] == records[i]);
        }
        lemma_records_payload_len_ok(init);
        assert(records[records.len() - 1] == records.last());
        records.last().lemma_bytes_len();
    }
}

/// An MLDv2 report can be encoded exactly when it has at most 65535 records, each of
/// them can be encoded and their encodings together fit in `usize`; its payload is then
/// the records' encodings one after the other. A report with more records is refused
/// with an error that carries their number, one with a record that can not be encoded
/// with that record's error.
pub proof fn law_report_payload_len(report: Mldv2Report)
    ensures
        ({
            let records = report.multicast_address_records@;
            &&& records.len() <= 65535 && (forall|i: int|
                0 <= i < records.len() ==> (#[trigger] records[i]).spec_record_len() is Ok)
                && spec_records_bytes(records).len() <= usize::MAX ==> (
            report.spec_payload_len() matches Ok(len) && len == report.spec_payload().len())
            &&& records.len() > 65535 ==> report.spec_payload_len() == Err::<usize, MldBuildError>(
                MldBuildError::MulticastAddressRecordCountTooBig {
                    actual: report.multicast_address_records.len(),
                },
            )
            &&& records.len() <= 65535 && report.spec_payload_len() is Ok ==> forall|i: int|
                0 <= i < records.len() ==> (#[trigger] records[i]).spec_record_len() is Ok
        }),
{
    let records = report.multicast_address_records@;
    if records.len() <= 65535 && (forall|i: int|
        0 <= i < records.len() ==> (#[trigger] records[i]).spec_record_len() is Ok)
        && spec_records_bytes(records).len() <= usize::MAX {
        lemma_records_payload_len_ok(records);
    }
    if records.len() <= 65535 && report.spec_payload_len() is Ok {
        lemma_records_payload_len(records);
    }
}

/// The ICMPv6 header of an MLD query with any checksum: type 130, code 0, the
/// checksum, the maximum response code (or delay) and two zero reserved bytes.
pub proof fn law_query_header(maximum_response_code: u16, checksum: u16)
    ensures
        ({
            let header = Icmpv6Header {
                icmp_type: Icmpv6Type::spec_multicast_listener_query(maximum_response_code),
                checksum,
            };
            let h = header.spec_bytes();
            &&& h.len() == 8
            &&& h[0] == 130
            &&& h[1] == 0
            &&& be_u16(h, 2) == checksum
            &&& be_u16(h, 4) == maximum_response_code
            &&& h[6] == 0
            &&& h[7] == 0
        }),
{
}

/// The ICMPv6 header of an MLDv2 report with at most 65535 records and any checksum:
/// type 143, code 0, the checksum, two zero reserved bytes and the number of records.
pub proof fn law_report_header(report: Mldv2Report, checksum: u16)
    requires
        report.multicast_address_records@.len() <= 65535,
    ensures
        spec_multicast_address_record_count(report.multicast_address_records.len()) matches Ok(
            count,
        ) && ({
            let header = Icmpv6Header {
                icmp_type: Icmpv6Type::spec_multicast_listener_report_v2(count),
                checksum,
            };
            let h = header.spec_bytes();
            &&& h.len() == 8
            &&& h[0] == 143
            &&& h[1] == 0
            &&& be_u16(h, 2) == checksum
            &&& be_u16(h, 4) == 0
            &&& be_u16(h, 6) == report.multicast_address_records@.len()
        }),
{
}

} // verus!
