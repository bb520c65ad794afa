use lib::err::{icmpv6_len_error, Layer, LenError, LenSource, SliceWriteSpaceError};
use lib::icmpv6::{Icmpv6Header, Icmpv6Slice, Icmpv6Type, TYPE_MULTICAST_LISTENER_REPORT_V2};
use lib::mld::{
    MldBuildError, MldIoWriteError, MldQuerySlice, MldSlice, MldSliceError,
    MldSourceAddressesIterator, Mldv1DoneSlice, Mldv1ReportSlice, Mldv2MulticastAddressRecord,
    Mldv2MulticastAddressRecordSlice, Mldv2MulticastAddressRecordType, Mldv2Query,
    Mldv2QuerySlice, Mldv2Report, Mldv2ReportSlice,
};

fn record_bytes(record_type: u8, sources: u16, aux_words: u8, fill: u8) -> Vec<u8> {
    let mut r = vec![record_type, aux_words, (sources >> 8) as u8, (sources & 0xff) as u8];
    r.extend_from_slice(&[fill; 16]);
    for i in 0..sources {
        r.extend_from_slice(&[i as u8; 16]);
    }
    for i in 0..(4 * aux_words as usize) {
        r.push(i as u8);
    }
    r
}

#[test]
fn keyword_names_of_record_types() {
    let names = [
        (1, "MODE_IS_INCLUDE"),
        (2, "MODE_IS_EXCLUDE"),
        (3, "CHANGE_TO_INCLUDE_MODE"),
        (4, "CHANGE_TO_EXCLUDE_MODE"),
        (5, "ALLOW_NEW_SOURCES"),
        (6, "BLOCK_OLD_SOURCES"),
    ];
    for (value, name) in names {
        assert_eq!(Some(name), Mldv2MulticastAddressRecordType(value).keyword_str());
    }
    assert_eq!(None, Mldv2MulticastAddressRecordType(0).keyword_str());
    assert_eq!(None, Mldv2MulticastAddressRecordType(7).keyword_str());
    assert_eq!(5, Mldv2MulticastAddressRecordType::ALLOW_NEW_SOURCES().0);
    assert_eq!(Mldv2MulticastAddressRecordType(9), Mldv2MulticastAddressRecordType::from(9u8));
    assert_eq!(9u8, u8::from(Mldv2MulticastAddressRecordType(9)));
}

#[test]
fn error_accessors() {
    let space = MldBuildError::SliceWriteSpace(SliceWriteSpaceError {
        required_len: 36,
        len: 20,
        layer: Layer::Icmpv6,
        layer_start_offset: 0,
    });
    assert_eq!(36, space.slice_write_space_error().unwrap().required_len);
    assert_eq!(None, MldBuildError::PayloadLenTooBig.slice_write_space_error());

    let len = MldSliceError::Len(icmpv6_len_error(8, 3));
    assert_eq!(Some(&icmpv6_len_error(8, 3)), len.len());
    assert_eq!(None, len.unexpected_icmpv6_type());
    let unexpected = MldSliceError::UnexpectedIcmpv6Type { type_u8: 1 };
    assert_eq!(None, unexpected.len());
    assert_eq!(Some(1), unexpected.unexpected_icmpv6_type());
    assert_eq!(MldSliceError::Len(icmpv6_len_error(1, 0)), MldSliceError::from(icmpv6_len_error(1, 0)));

    let io = MldIoWriteError::from(std::io::Error::new(std::io::ErrorKind::Other, "closed"));
    assert!(io.io().is_some());
    assert!(io.build().is_none());
    let build = MldIoWriteError::from(MldBuildError::PayloadLenTooBig);
    assert!(build.io().is_none());
    assert_eq!(Some(&MldBuildError::PayloadLenTooBig), build.build());
}

#[test]
fn too_short_icmpv6_message() {
    assert_eq!(
        Err(MldSliceError::Len(icmpv6_len_error(8, 7))),
        MldSlice::from_slice(&[130, 0, 0, 0, 0, 0, 0])
    );
    assert_eq!(Err(icmpv6_len_error(8, 0)), Icmpv6Slice::from_slice(&[]));
}

#[test]
fn mld_length_errors_of_each_message() {
    // query between the MLDv1 and MLDv2 lengths
    let mut q = [0u8; 25];
    q[0] = 130;
    assert_eq!(
        Err(MldSliceError::Len(icmpv6_len_error(28, 25))),
        MldSlice::from_slice(&q)
    );
    // MLDv2 query announcing one source without its bytes
    let mut q = [0u8; 30];
    q[0] = 130;
    q[27] = 1;
    assert_eq!(
        Err(MldSliceError::Len(icmpv6_len_error(44, 30))),
        MldSlice::from_slice(&q)
    );
    assert_eq!(Err(icmpv6_len_error(28, 27)), Mldv2QuerySlice::from_slice(&[0; 27]));
    // version 1 report and done shorter than 24 bytes
    for t in [131u8, 132] {
        let mut m = [0u8; 23];
        m[0] = t;
        assert_eq!(
            Err(MldSliceError::Len(icmpv6_len_error(24, 23))),
            MldSlice::from_slice(&m)
        );
    }
    assert_eq!(Err(icmpv6_len_error(24, 10)), Mldv1DoneSlice::from_slice(&[0; 10]));
    assert_eq!(Err(icmpv6_len_error(24, 10)), Mldv1ReportSlice::from_slice(&[0; 10]));
    assert_eq!(Err(icmpv6_len_error(8, 5)), Mldv2ReportSlice::from_slice(&[0; 5]));
}

#[test]
fn report_record_error_reports_offset() {
    // two records announced, the second one is cut short
    let mut packet = vec![143, 0, 0, 0, 0, 0, 0, 2];
    packet.extend_from_slice(&record_bytes(1, 1, 0, 7));
    packet.extend_from_slice(&[2, 0, 0]);
    let expected = LenError {
        required_len: 20,
        len: 3,
        len_source: LenSource::Slice,
        layer: Layer::Icmpv6,
        layer_start_offset: 8 + 36,
    };
    assert_eq!(Err(expected), Mldv2ReportSlice::from_slice(&packet));
    assert_eq!(Err(MldSliceError::Len(expected)), MldSlice::from_slice(&packet));
}

#[test]
fn report_records_iterator_steps() {
    let mut packet = vec![143, 0, 0, 0, 0x12, 0x34, 0, 2];
    let first = record_bytes(1, 2, 1, 0xaa);
    let second = record_bytes(6, 0, 0, 0xbb);
    packet.extend_from_slice(&first);
    packet.extend_from_slice(&second);
    packet.extend_from_slice(&[9]);
    let report = Mldv2ReportSlice::from_slice(&packet).unwrap();
    assert_eq!(0x1234, report.reserved());
    assert_eq!(2, report.number_of_multicast_address_records());
    assert_eq!(first.len() + second.len(), report.multicast_address_records().len());
    assert_eq!(&[9], report.additional_data());
    assert_eq!(&packet[..], report.slice());

    let mut it = report.multicast_address_records_iterator();
    let r1 = it.next().unwrap();
    assert_eq!(&first[..], r1.slice());
    assert_eq!(1, r1.aux_data_len());
    assert_eq!(2, r1.number_of_sources());
    assert_eq!(32, r1.source_addresses().len());
    assert_eq!(&[0, 1, 2, 3], r1.auxiliary_data());
    let r2 = it.next().unwrap();
    assert_eq!(&second[..], r2.slice());
    assert_eq!(Mldv2MulticastAddressRecordType::BLOCK_OLD_SOURCES(), r2.record_type());
    assert!(it.next().is_none());
    assert!(it.next().is_none());
}

#[test]
fn record_slice_ignores_trailing_bytes() {
    let mut bytes = record_bytes(3, 1, 0, 1);
    bytes.extend_from_slice(&[5, 5, 5]);
    let record = Mldv2MulticastAddressRecordSlice::from_slice(&bytes).unwrap();
    assert_eq!(36, record.slice().len());
    assert!(record.auxiliary_data().is_empty());
    assert_eq!(vec![[0u8; 16]], record.source_addresses_iterator().to_vec());
}

#[test]
fn source_iterator_stops_on_partial_address() {
    let bytes = [1u8; 20];
    let mut it = MldSourceAddressesIterator::from_slice(&bytes[..16]).unwrap();
    assert_eq!(Some([1u8; 16]), it.next());
    assert_eq!(None, it.next());
    assert_eq!(Err(icmpv6_len_error(32, 20)), MldSourceAddressesIterator::from_slice(&bytes));
    assert_eq!(Err(icmpv6_len_error(16, 15)), MldSourceAddressesIterator::from_slice(&bytes[..15]));
    assert!(MldSourceAddressesIterator::from_slice(&[]).unwrap().to_vec().is_empty());
}

#[test]
fn v1_done_and_report_fields() {
    let mut packet = vec![132, 0, 0, 0, 1, 2, 3, 4];
    packet.extend_from_slice(&[0xee; 16]);
    let done = Mldv1DoneSlice::from_slice(&packet).unwrap();
    assert_eq!(0x01020304, done.reserved());
    assert_eq!([0xee; 16], done.to_done().multicast_address);
    assert!(done.additional_data().is_empty());
    assert_eq!(&packet[..], done.slice());
    packet[0] = 131;
    let report = Mldv1ReportSlice::from_slice(&packet).unwrap();
    assert_eq!([0xee; 16], report.to_report().multicast_address);
    match MldSlice::from_slice(&packet).unwrap() {
        MldSlice::ListenerReportV1(value) => assert_eq!(&packet[..], value.slice()),
        _ => panic!("expected mldv1 report"),
    }
}

#[test]
fn v2_query_raw_flags() {
    let mut packet = [0u8; 28];
    packet[0] = 130;
    packet[7] = 0xab;
    packet[24] = 0xfd;
    let query = Mldv2QuerySlice::from_slice(&packet).unwrap();
    assert_eq!(0xfd, query.resv_s_qrv());
    assert!(query.suppress_router_side_processing());
    assert_eq!(5, query.querier_robustness_variable());
    assert_eq!(0xab, query.reserved());
    let q = MldQuerySlice::from_slice(&packet).unwrap();
    assert_eq!(0, q.maximum_response_code());
    assert_eq!([0u8; 16], q.multicast_address());
    assert_eq!(&packet[..], q.slice());
}

#[test]
fn query_writer_masks_robustness_and_keeps_tail() {
    let sources = [[3u8; 16]];
    let query = Mldv2Query {
        maximum_response_code: 0,
        multicast_address: [0xff; 16],
        suppress_router_side_processing: false,
        querier_robustness_variable: 0xff,
        querier_query_interval_code: 9,
        source_addresses: &sources,
    };
    let mut out = [0x55u8; 40];
    assert_eq!(Ok(36), query.write_to_slice(&mut out));
    assert_eq!(0x07, out[16]);
    assert_eq!(9, out[17]);
    assert_eq!([0, 1], out[18..20]);
    assert_eq!([3u8; 16], out[20..36]);
    assert_eq!([0x55u8; 4], out[36..]);

    let mut short = [0x55u8; 35];
    assert_eq!(
        Err(MldBuildError::SliceWriteSpace(SliceWriteSpaceError {
            required_len: 36,
            len: 35,
            layer: Layer::Icmpv6,
            layer_start_offset: 0,
        })),
        query.write_to_slice(&mut short)
    );
    assert_eq!([0x55u8; 35], short);
}

#[test]
fn record_writer_bytes_and_errors() {
    let sources = [[1u8; 16], [2u8; 16]];
    let record = Mldv2MulticastAddressRecord {
        record_type: Mldv2MulticastAddressRecordType::MODE_IS_EXCLUDE(),
        multicast_address: [0xff; 16],
        source_addresses: &sources,
        auxiliary_data: &[9, 9, 9, 9, 8, 8, 8, 8],
    };
    assert_eq!(Ok(60), record.record_len());
    let mut v = vec![0xaa];
    record.write_to_vec(&mut v).unwrap();
    assert_eq!(61, v.len());
    assert_eq!([0xaa, 2, 2, 0, 2], v[..5]);
    let mut s = [0u8; 64];
    assert_eq!(Ok(60), record.write_to_slice(&mut s));
    assert_eq!(v[1..], s[..60]);
    assert_eq!(
        Err(MldBuildError::SliceWriteSpace(SliceWriteSpaceError {
            required_len: 60,
            len: 59,
            layer: Layer::Icmpv6,
            layer_start_offset: 0,
        })),
        record.write_to_slice(&mut [0u8; 59])
    );
    let parsed = Mldv2MulticastAddressRecordSlice::from_slice(&s).unwrap();
    assert_eq!(&[9, 9, 9, 9, 8, 8, 8, 8], parsed.auxiliary_data());

    let big_aux = vec![0u8; 1024];
    let record = Mldv2MulticastAddressRecord {
        record_type: Mldv2MulticastAddressRecordType(1),
        multicast_address: [0; 16],
        source_addresses: &[],
        auxiliary_data: &big_aux,
    };
    assert_eq!(Err(MldBuildError::AuxiliaryDataLenTooBig { actual: 1024 }), record.record_len());
    let mut untouched = vec![1u8];
    assert_eq!(
        Err(MldBuildError::AuxiliaryDataLenTooBig { actual: 1024 }),
        record.write_to_vec(&mut untouched)
    );
    assert_eq!(vec![1u8], untouched);
    let max_aux = vec![0u8; 1020];
    let record = Mldv2MulticastAddressRecord { auxiliary_data: &max_aux, ..record };
    assert_eq!(Ok(1040), record.record_len());
}

#[test]
fn report_writer_errors() {
    let bad = Mldv2MulticastAddressRecord {
        record_type: Mldv2MulticastAddressRecordType(1),
        multicast_address: [0; 16],
        source_addresses: &[],
        auxiliary_data: &[1],
    };
    let good = Mldv2MulticastAddressRecord { auxiliary_data: &[], ..bad };
    let records = [good, bad];
    let report = Mldv2Report { multicast_address_records: &records };
    assert_eq!(Err(MldBuildError::AuxiliaryDataLenUnaligned { actual: 1 }), report.payload_len());
    let mut out = [7u8; 100];
    assert_eq!(
        Err(MldBuildError::AuxiliaryDataLenUnaligned { actual: 1 }),
        report.write_to_slice(&mut out)
    );
    assert_eq!([7u8; 100], out);

    let many = vec![good; 65536];
    let report = Mldv2Report { multicast_address_records: &many };
    assert_eq!(
        Err(MldBuildError::MulticastAddressRecordCountTooBig { actual: 65536 }),
        report.icmpv6_type()
    );
    assert_eq!(
        Err(MldBuildError::MulticastAddressRecordCountTooBig { actual: 65536 }),
        report.payload_len()
    );
    let report = Mldv2Report { multicast_address_records: &many[..65535] };
    assert_eq!(Ok(65535 * 20), report.payload_len());
    assert_eq!(
        Ok(Icmpv6Type::Unknown {
            type_u8: TYPE_MULTICAST_LISTENER_REPORT_V2,
            code_u8: 0,
            bytes5to8: [0, 0, 0xff, 0xff],
        }),
        report.icmpv6_type()
    );
}

#[test]
fn header_bytes() {
    let header = Icmpv6Header {
        icmp_type: Icmpv6Type::multicast_listener_query(0x0102),
        checksum: 0xabcd,
    };
    assert_eq!([130, 0, 0xab, 0xcd, 1, 2, 0, 0], header.to_bytes());
    assert_eq!(0, Icmpv6Header::new(Icmpv6Type::multicast_listener_report_v2(3)).checksum);
}

#[test]
fn roundtrip_keeps_fields_and_extra_data() {
    // MLDv2 query: written fields come back, extra bytes become additional data
    let sources = [[4u8; 16], [5u8; 16], [6u8; 16]];
    let query = Mldv2Query {
        maximum_response_code: 0xfffe,
        multicast_address: [0x11; 16],
        suppress_router_side_processing: true,
        querier_robustness_variable: 0x0a,
        querier_query_interval_code: 0x33,
        source_addresses: &sources,
    };
    let mut packet = Icmpv6Header { icmp_type: query.icmpv6_type(), checksum: 0x1234 }
        .to_bytes()
        .to_vec();
    query.write_to_vec(&mut packet).unwrap();
    packet.extend_from_slice(&[1, 2]);
    match MldSlice::from_slice(&packet).unwrap() {
        MldSlice::Query(MldQuerySlice::Version2(q)) => {
            assert_eq!(0xfffe, q.maximum_response_code());
            assert_eq!(2, q.querier_robustness_variable());
            assert_eq!(sources.to_vec(), q.source_addresses_iterator().to_vec());
            assert_eq!(&[1, 2], q.additional_data());
        }
        _ => panic!("expected mldv2 query"),
    }

    // MLDv2 report with two records: the iterator returns both, in order
    let s1 = [[7u8; 16]];
    let records = [
        Mldv2MulticastAddressRecord {
            record_type: Mldv2MulticastAddressRecordType::MODE_IS_INCLUDE(),
            multicast_address: [0x21; 16],
            source_addresses: &s1,
            auxiliary_data: &[],
        },
        Mldv2MulticastAddressRecord {
            record_type: Mldv2MulticastAddressRecordType::CHANGE_TO_EXCLUDE_MODE(),
            multicast_address: [0x22; 16],
            source_addresses: &[],
            auxiliary_data: &[1, 2, 3, 4],
        },
    ];
    let report = Mldv2Report { multicast_address_records: &records };
    let mut packet = Icmpv6Header::new(report.icmpv6_type().unwrap()).to_bytes().to_vec();
    report.write_to_vec(&mut packet).unwrap();
    match MldSlice::from_slice(&packet).unwrap() {
        MldSlice::ListenerReportV2(r) => {
            let parsed = r.multicast_address_records_iterator().to_vec();
            assert_eq!(2, parsed.len());
            assert_eq!([0x21; 16], parsed[0].multicast_address());
            assert_eq!(vec![[7u8; 16]], parsed[0].source_addresses_iterator().to_vec());
            assert_eq!(4, parsed[1].record_type().0);
            assert_eq!(&[1, 2, 3, 4], parsed[1].auxiliary_data());
            assert!(r.additional_data().is_empty());
        }
        _ => panic!("expected mldv2 report"),
    }
}

#[test]
fn error_messages() {
    assert_eq!(
        "MLD build error: 65536 source addresses can not be represented by a 16-bit source address count field.",
        MldBuildError::SourceAddressCountTooBig { actual: 65536 }.message()
    );
    assert_eq!(
        "MLD build error: auxiliary data length of 3 bytes is not a multiple of 4.",
        MldBuildError::AuxiliaryDataLenUnaligned { actual: 3 }.message()
    );
    assert_eq!(
        "MLD build error: 0 multicast address records can not be represented by a 16-bit record count field.",
        MldBuildError::MulticastAddressRecordCountTooBig { actual: 0 }.message()
    );
    assert_eq!(
        "MLD build error: 1024 bytes of auxiliary data can not be represented by an 8-bit auxiliary data length field.",
        MldBuildError::AuxiliaryDataLenTooBig { actual: 1024 }.message()
    );
    assert_eq!(
        "MLD build error: payload length is too large to be represented on this platform.",
        MldBuildError::PayloadLenTooBig.message()
    );
    assert_eq!(
        "MLD Slice Error: Unexpected ICMPv6 type '128' (expected 130, 131, 132, or 143).",
        MldSliceError::UnexpectedIcmpv6Type { type_u8: 128 }.message()
    );
    assert_eq!(
        "ICMPv6 length error: 24 byte(s) would be required, but only 3 byte(s) are available in the slice (layer starting at offset 0).",
        MldSliceError::Len(icmpv6_len_error(24, 3)).message()
    );
    let space = SliceWriteSpaceError { required_len: 36, len: 20, layer: Layer::Icmpv6, layer_start_offset: 0 };
    assert_eq!(space.message(), MldBuildError::SliceWriteSpace(space).message());
    assert_eq!(
        "Slice write space error: not enough space to write ICMPv6 to slice. Needed 36 byte(s), but only 20 byte(s) were available.",
        space.message()
    );
}

#[test]
fn source_iterator_successive_calls() {
    let mut bytes = vec![];
    for i in 0..3u8 {
        bytes.extend_from_slice(&[i; 16]);
    }
    let mut it = MldSourceAddressesIterator::from_slice(&bytes).unwrap();
    for i in 0..3u8 {
        assert_eq!(Some([i; 16]), it.next());
    }
    for _ in 0..3 {
        assert_eq!(None, it.next());
    }
}
