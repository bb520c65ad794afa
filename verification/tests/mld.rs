use lib::err::{icmpv6_len_error, Layer, LenError, LenSource};
use lib::icmpv6::{
    Icmpv6Header, Icmpv6Slice, Icmpv6Type, TYPE_ECHO_REQUEST, TYPE_MULTICAST_LISTENER_DONE,
    TYPE_MULTICAST_LISTENER_QUERY, TYPE_MULTICAST_LISTENER_REPORT,
    TYPE_MULTICAST_LISTENER_REPORT_V2,
};
use lib::mld::{
    MldBuildError, MldQuerySlice, MldSlice, MldSliceError, MldSourceAddressesIterator, Mldv1Query,
    Mldv2MulticastAddressRecord, Mldv2MulticastAddressRecordSlice,
    Mldv2MulticastAddressRecordType, Mldv2Query, Mldv2Report,
};

/// The 16 octets of the IPv6 address with the given eight 16-bit segments.
fn addr(segments: [u16; 8]) -> [u8; 16] {
    let mut r = [0u8; 16];
    for (i, s) in segments.iter().enumerate() {
        r[2 * i] = (s >> 8) as u8;
        r[2 * i + 1] = (s & 0xff) as u8;
    }
    r
}

const GROUP: [u16; 8] = [0xff02, 0, 0, 0, 0, 0, 0, 1];
const SOURCE_1: [u16; 8] = [0x2001, 0xdb8, 0, 0, 0, 0, 0, 1];
const SOURCE_2: [u16; 8] = [0x2001, 0xdb8, 0, 0, 0, 0, 0, 2];

#[test]
fn mldv1_query_parse_and_write() {
    let group = addr(GROUP);
    let query = Mldv1Query {
        maximum_response_delay: 1234,
        multicast_address: group,
    };
    let mut packet = Vec::new();
    packet.extend_from_slice(&Icmpv6Header::new(query.icmpv6_type()).to_bytes());
    packet.extend_from_slice(&query.to_bytes());

    let icmp = Icmpv6Slice::from_slice(&packet).unwrap();
    assert_eq!(
        &Icmpv6Header::new(Icmpv6Type::Unknown {
            type_u8: TYPE_MULTICAST_LISTENER_QUERY,
            code_u8: 0,
            bytes5to8: [0x04, 0xd2, 0, 0],
        })
        .to_bytes()[..],
        &icmp.slice()[..8]
    );

    assert!(icmp.is_mld());
    let mld = icmp.mld_slice().unwrap();
    let query = match mld {
        MldSlice::Query(MldQuerySlice::Version1(value)) => value,
        _ => panic!("expected mldv1 query"),
    };
    assert_eq!(1234, query.maximum_response_delay());
    assert_eq!(0, query.reserved());
    assert_eq!(group, query.multicast_address());
    assert_eq!(group, query.to_query().to_bytes());
}

#[test]
fn mld_query_versions_and_lengths() {
    assert_eq!(
        Err(icmpv6_len_error(Mldv1Query::LEN, 23)),
        MldQuerySlice::from_slice(&[0; 23])
    );
    assert_eq!(
        Err(icmpv6_len_error(Mldv2Query::MIN_LEN, 26)),
        MldQuerySlice::from_slice(&[0; 26])
    );

    let mut v2 = [0u8; Mldv2Query::MIN_LEN];
    v2[0] = TYPE_MULTICAST_LISTENER_QUERY;
    assert!(matches!(
        MldQuerySlice::from_slice(&v2).unwrap(),
        MldQuerySlice::Version2(_)
    ));
}

#[test]
fn mldv2_query_parse_and_write() {
    let sources = [addr(SOURCE_1), addr(SOURCE_2)];
    let query = Mldv2Query {
        maximum_response_code: 0x8123,
        multicast_address: addr(GROUP),
        suppress_router_side_processing: true,
        querier_robustness_variable: 5,
        querier_query_interval_code: 0x80,
        source_addresses: &sources,
    };
    let mut payload = Vec::new();
    query.write_to_vec(&mut payload).unwrap();
    payload.extend_from_slice(&[9, 8, 7]);

    let mut packet = Vec::new();
    packet.extend_from_slice(&Icmpv6Header::new(query.icmpv6_type()).to_bytes());
    packet.extend_from_slice(&payload);

    let mld = MldSlice::from_slice(&packet).unwrap();
    let query = match mld {
        MldSlice::Query(MldQuerySlice::Version2(value)) => value,
        _ => panic!("expected mldv2 query"),
    };

    assert_eq!(0x8123, query.maximum_response_code());
    assert_eq!(addr(GROUP), query.multicast_address());
    assert!(query.suppress_router_side_processing());
    assert_eq!(5, query.querier_robustness_variable());
    assert_eq!(0x80, query.querier_query_interval_code());
    assert_eq!(2, query.number_of_sources());
    assert_eq!(
        vec![addr(SOURCE_1), addr(SOURCE_2)],
        query.source_addresses_iterator().to_vec()
    );
    assert_eq!(&[9, 8, 7], query.additional_data());
}

#[test]
fn mldv1_report_and_done() {
    for (type_u8, expected) in [
        (TYPE_MULTICAST_LISTENER_REPORT, "report"),
        (TYPE_MULTICAST_LISTENER_DONE, "done"),
    ] {
        let mut packet = Vec::new();
        packet.extend_from_slice(
            &Icmpv6Header::new(Icmpv6Type::Unknown {
                type_u8,
                code_u8: 0,
                bytes5to8: [0; 4],
            })
            .to_bytes(),
        );
        packet.extend_from_slice(&addr(GROUP));
        packet.extend_from_slice(&[1, 2, 3]);

        match MldSlice::from_slice(&packet).unwrap() {
            MldSlice::ListenerReportV1(value) => {
                assert_eq!("report", expected);
                assert_eq!(addr(GROUP), value.multicast_address());
                assert_eq!(&[1, 2, 3], value.additional_data());
            }
            MldSlice::ListenerDoneV1(value) => {
                assert_eq!("done", expected);
                assert_eq!(addr(GROUP), value.multicast_address());
                assert_eq!(&[1, 2, 3], value.additional_data());
            }
            _ => panic!("expected mldv1 report/done"),
        }
    }
}

#[test]
fn mldv2_report_records() {
    let sources = [addr(SOURCE_1), addr(SOURCE_2)];
    let record = Mldv2MulticastAddressRecord {
        record_type: Mldv2MulticastAddressRecordType::ALLOW_NEW_SOURCES(),
        multicast_address: addr(GROUP),
        source_addresses: &sources,
        auxiliary_data: &[1, 2, 3, 4],
    };
    let records = [record];
    let report = Mldv2Report {
        multicast_address_records: &records,
    };
    let mut payload = Vec::new();
    report.write_to_vec(&mut payload).unwrap();
    payload.extend_from_slice(&[5, 6]);

    let mut packet = Vec::new();
    packet.extend_from_slice(&Icmpv6Header::new(report.icmpv6_type().unwrap()).to_bytes());
    packet.extend_from_slice(&payload);

    let report = match MldSlice::from_slice(&packet).unwrap() {
        MldSlice::ListenerReportV2(value) => value,
        _ => panic!("expected mldv2 report"),
    };
    assert_eq!(1, report.number_of_multicast_address_records());
    assert_eq!(&[5, 6], report.additional_data());

    let records = report.multicast_address_records_iterator().to_vec();
    assert_eq!(1, records.len());
    assert_eq!(
        Mldv2MulticastAddressRecordType::ALLOW_NEW_SOURCES(),
        records[0].record_type()
    );
    assert_eq!(addr(GROUP), records[0].multicast_address());
    assert_eq!(
        vec![addr(SOURCE_1), addr(SOURCE_2)],
        records[0].source_addresses_iterator().to_vec()
    );
    assert_eq!(&[1, 2, 3, 4], records[0].auxiliary_data());
}

#[test]
fn mldv2_query_write_to_slice() {
    let sources = [addr(SOURCE_1), addr(SOURCE_2)];
    let query = Mldv2Query {
        maximum_response_code: 0x1234,
        multicast_address: addr(GROUP),
        suppress_router_side_processing: true,
        querier_robustness_variable: 3,
        querier_query_interval_code: 0x7f,
        source_addresses: &sources,
    };

    let mut payload = [0u8; Mldv2Query::FIXED_PAYLOAD_LEN + 2 * 16];
    let len = query.write_to_slice(&mut payload).unwrap();
    assert_eq!(payload.len(), len);
    assert_eq!(payload.len(), query.payload_len().unwrap());

    let mut packet = Vec::new();
    packet.extend_from_slice(&Icmpv6Header::new(query.icmpv6_type()).to_bytes());
    packet.extend_from_slice(&payload);

    let parsed = match MldSlice::from_slice(&packet).unwrap() {
        MldSlice::Query(MldQuerySlice::Version2(value)) => value,
        _ => panic!("expected mldv2 query"),
    };
    assert_eq!(0x1234, parsed.maximum_response_code());
    assert_eq!(addr(GROUP), parsed.multicast_address());
    assert!(parsed.suppress_router_side_processing());
    assert_eq!(3, parsed.querier_robustness_variable());
    assert_eq!(0x7f, parsed.querier_query_interval_code());
    assert_eq!(2, parsed.number_of_sources());
    assert_eq!(
        vec![addr(SOURCE_1), addr(SOURCE_2)],
        parsed.source_addresses_iterator().to_vec()
    );
}

#[test]
fn mldv2_query_write_to_vec() {
    let sources = [addr(SOURCE_1)];
    let query = Mldv2Query {
        maximum_response_code: 10,
        multicast_address: addr(GROUP),
        suppress_router_side_processing: false,
        querier_robustness_variable: 1,
        querier_query_interval_code: 2,
        source_addresses: &sources,
    };

    let mut payload = Vec::new();
    query.write_to_vec(&mut payload).unwrap();
    assert_eq!(Mldv2Query::FIXED_PAYLOAD_LEN + 16, payload.len());
}

#[test]
fn mldv2_report_write_to_slice() {
    let sources = [addr(SOURCE_1), addr(SOURCE_2)];
    let record = Mldv2MulticastAddressRecord {
        record_type: Mldv2MulticastAddressRecordType::BLOCK_OLD_SOURCES(),
        multicast_address: addr(GROUP),
        source_addresses: &sources,
        auxiliary_data: &[1, 2, 3, 4],
    };
    let records = [record];
    let report = Mldv2Report {
        multicast_address_records: &records,
    };

    let mut payload = [0u8; Mldv2MulticastAddressRecord::FIXED_LEN + 2 * 16 + 4];
    let len = report.write_to_slice(&mut payload).unwrap();
    assert_eq!(payload.len(), len);
    assert_eq!(payload.len(), report.payload_len().unwrap());

    let mut packet = Vec::new();
    packet.extend_from_slice(&Icmpv6Header::new(report.icmpv6_type().unwrap()).to_bytes());
    packet.extend_from_slice(&payload);

    let report = match MldSlice::from_slice(&packet).unwrap() {
        MldSlice::ListenerReportV2(value) => value,
        _ => panic!("expected mldv2 report"),
    };
    assert_eq!(1, report.number_of_multicast_address_records());

    let records = report.multicast_address_records_iterator().to_vec();
    assert_eq!(1, records.len());
    assert_eq!(
        Mldv2MulticastAddressRecordType::BLOCK_OLD_SOURCES(),
        records[0].record_type()
    );
    assert_eq!(addr(GROUP), records[0].multicast_address());
    assert_eq!(
        vec![addr(SOURCE_1), addr(SOURCE_2)],
        records[0].source_addresses_iterator().to_vec()
    );
    assert_eq!(&[1, 2, 3, 4], records[0].auxiliary_data());
}

#[test]
fn mldv2_report_write_to_vec() {
    let sources = [addr(SOURCE_1)];
    let record = Mldv2MulticastAddressRecord {
        record_type: Mldv2MulticastAddressRecordType::CHANGE_TO_INCLUDE_MODE(),
        multicast_address: addr(GROUP),
        source_addresses: &sources,
        auxiliary_data: &[],
    };
    let records = [record];
    let report = Mldv2Report {
        multicast_address_records: &records,
    };

    let mut payload = Vec::new();
    report.write_to_vec(&mut payload).unwrap();
    assert_eq!(Mldv2MulticastAddressRecord::FIXED_LEN + 16, payload.len());
}

#[test]
fn mldv2_writer_errors() {
    let sources = [addr(SOURCE_1)];
    let query = Mldv2Query {
        maximum_response_code: 10,
        multicast_address: addr(GROUP),
        suppress_router_side_processing: false,
        querier_robustness_variable: 1,
        querier_query_interval_code: 2,
        source_addresses: &sources,
    };

    assert!(matches!(
        query
            .write_to_slice(&mut [0; Mldv2Query::FIXED_PAYLOAD_LEN])
            .unwrap_err(),
        MldBuildError::SliceWriteSpace(_)
    ));

    let record = Mldv2MulticastAddressRecord {
        record_type: Mldv2MulticastAddressRecordType::ALLOW_NEW_SOURCES(),
        multicast_address: addr(GROUP),
        source_addresses: &[],
        auxiliary_data: &[1, 2, 3],
    };
    assert_eq!(
        Err(MldBuildError::AuxiliaryDataLenUnaligned { actual: 3 }),
        record.record_len()
    );

    let too_many_sources = vec![addr(SOURCE_1); usize::from(u16::MAX) + 1];
    let query = Mldv2Query {
        maximum_response_code: 10,
        multicast_address: addr(GROUP),
        suppress_router_side_processing: false,
        querier_robustness_variable: 1,
        querier_query_interval_code: 2,
        source_addresses: &too_many_sources,
    };
    assert_eq!(
        Err(MldBuildError::SourceAddressCountTooBig {
            actual: usize::from(u16::MAX) + 1
        }),
        query.payload_len()
    );
}

#[test]
fn mldv2_report_record_length_errors() {
    assert_eq!(
        Err(icmpv6_len_error(Mldv2MulticastAddressRecord::FIXED_LEN, 19)),
        Mldv2MulticastAddressRecordSlice::from_slice(&[0; 19])
    );

    let mut record = [0u8; Mldv2MulticastAddressRecord::FIXED_LEN];
    record[3] = 1;
    assert_eq!(
        Err(icmpv6_len_error(36, 20)),
        Mldv2MulticastAddressRecordSlice::from_slice(&record)
    );
}

#[test]
fn mld_detection_and_unexpected_type_error() {
    assert!(MldSlice::is_mld_type_u8(TYPE_MULTICAST_LISTENER_QUERY));
    assert!(MldSlice::is_mld_type_u8(TYPE_MULTICAST_LISTENER_REPORT));
    assert!(MldSlice::is_mld_type_u8(TYPE_MULTICAST_LISTENER_DONE));
    assert!(MldSlice::is_mld_type_u8(TYPE_MULTICAST_LISTENER_REPORT_V2));
    assert!(!MldSlice::is_mld_type_u8(TYPE_ECHO_REQUEST));

    // Echo request with identifier 1 and sequence number 2.
    let header = Icmpv6Header::new(Icmpv6Type::Unknown {
        type_u8: TYPE_ECHO_REQUEST,
        code_u8: 0,
        bytes5to8: [0, 1, 0, 2],
    });
    let packet = header.to_bytes();
    let icmp = Icmpv6Slice::from_slice(&packet).unwrap();

    assert!(!icmp.is_mld());
    assert_eq!(
        Err(MldSliceError::UnexpectedIcmpv6Type {
            type_u8: TYPE_ECHO_REQUEST,
        }),
        icmp.mld_slice()
    );
}

#[test]
fn from_slice() {
    let bytes = [
        0x20, 0x01, 0x0d, 0xb8, 0, 0, 0, 0, 0, 0, 0, 0, 0, 0, 0, 1, 0x20, 0x01, 0x0d, 0xb8, 0, 0,
        0, 0, 0, 0, 0, 0, 0, 0, 0, 2,
    ];

    assert_eq!(
        vec![
            addr([0x2001, 0xdb8, 0, 0, 0, 0, 0, 1]),
            addr([0x2001, 0xdb8, 0, 0, 0, 0, 0, 2]),
        ],
        MldSourceAddressesIterator::from_slice(&bytes)
            .unwrap()
            .to_vec()
    );
}

#[test]
fn from_slice_len_error() {
    assert_eq!(
        Err(icmpv6_len_error(16, 1)),
        MldSourceAddressesIterator::from_slice(&[0; 1])
    );
    assert_eq!(
        Err(icmpv6_len_error(32, 17)),
        MldSourceAddressesIterator::from_slice(&[0; 17])
    );
}

#[test]
fn len_error_fields() {
    let e: LenError = icmpv6_len_error(24, 3);
    assert_eq!(24, e.required_len);
    assert_eq!(3, e.len);
    assert_eq!(LenSource::Slice, e.len_source);
    assert_eq!(Layer::Icmpv6, e.layer);
    assert_eq!(0, e.layer_start_offset);
}
