use lqos::bus::{
    any_response_is_ack, cookie_value, mappings_from_responses, parse_cpu_id, parse_add_ip,
    BusRequest, BusResponse, IpMapping,
};
use lqos::tc_handle::{parse_hex_u16, parse_hex_u32, ParseError, TcHandle};

#[test]
fn cookie_is_the_fixed_session_marker() {
    assert_eq!(cookie_value(), 1234);
}

#[test]
fn tc_handle_parses_hex_major_minor() {
    assert_eq!(TcHandle::from_string("1:12"), Ok(TcHandle { major: 1, minor: 0x12 }));
    assert_eq!(TcHandle::from_string("a:FF"), Ok(TcHandle { major: 10, minor: 255 }));
    assert_eq!(TcHandle::from_string("ffff:0"), Ok(TcHandle { major: 0xFFFF, minor: 0 }));
}

#[test]
fn tc_handle_rejects_malformed_text() {
    assert_eq!(TcHandle::from_string("112"), Err(ParseError::TcHandleFormat));
    assert_eq!(TcHandle::from_string("1:2:3"), Err(ParseError::TcHandleFormat));
    assert_eq!(TcHandle::from_string(":12"), Err(ParseError::TcHandleFormat));
    assert_eq!(TcHandle::from_string("1:"), Err(ParseError::TcHandleFormat));
    assert_eq!(TcHandle::from_string("1:zz"), Err(ParseError::TcHandleFormat));
    assert_eq!(TcHandle::from_string("10000:1"), Err(ParseError::TcHandleFormat));
    assert_eq!(TcHandle::from_string(""), Err(ParseError::TcHandleFormat));
}

#[test]
fn tc_handle_reports_its_pair() {
    let h = TcHandle { major: 7, minor: 9 };
    assert_eq!(h.get_major_minor(), (7, 9));
}

#[test]
fn hex_parsers_accept_exactly_fitting_numbers() {
    assert_eq!(parse_hex_u16(b"ffff"), Some(0xFFFF));
    assert_eq!(parse_hex_u16(b"10000"), None);
    assert_eq!(parse_hex_u16(b""), None);
    assert_eq!(parse_hex_u16(b"1g"), None);
    assert_eq!(parse_hex_u32(b"ffffffff"), Some(0xFFFF_FFFF));
    assert_eq!(parse_hex_u32(b"100000000"), None);
    assert_eq!(parse_hex_u32(b"0"), Some(0));
}

#[test]
fn cpu_ids_are_hex_with_an_optional_0x_marker() {
    assert_eq!(parse_cpu_id("0x10"), Some(16));
    assert_eq!(parse_cpu_id("10"), Some(16));
    assert_eq!(parse_cpu_id("ff"), Some(255));
    assert_eq!(parse_cpu_id("+1a"), Some(26));
    assert_eq!(parse_cpu_id(""), None);
    assert_eq!(parse_cpu_id("0x"), None);
    assert_eq!(parse_cpu_id("zz"), None);
}

#[test]
fn add_ip_builds_the_mapping_request() {
    let r = parse_add_ip("100.64.1.2", "1:12", "0x1", false).unwrap();
    match r {
        BusRequest::MapIpToFlow { ip_address, tc_handle, cpu, upload } => {
            assert_eq!(ip_address.as_str(), "100.64.1.2");
            assert_eq!(tc_handle, TcHandle { major: 1, minor: 0x12 });
            assert_eq!(cpu, 1);
            assert!(!upload);
        },
        other => panic!("wrong request: {:?}", other),
    }
}

#[test]
fn add_ip_reports_each_malformed_argument_distinctly() {
    assert_eq!(
        parse_add_ip("100.64.1.2", "112", "0x1", false),
        Err(ParseError::ClassIdFormat)
    );
    assert_eq!(
        parse_add_ip("100.64.1.2", "1:zz", "0x1", false),
        Err(ParseError::TcHandleFormat)
    );
    assert_eq!(
        parse_add_ip("100.64.1.2", "1:12", "cows", false),
        Err(ParseError::CpuFormat)
    );
}

#[test]
fn liveness_is_any_acknowledgement() {
    assert!(!any_response_is_ack(&Vec::new()));
    assert!(!any_response_is_ack(&vec![BusResponse::RttHistogram(vec![1, 2])]));
    assert!(any_response_is_ack(&vec![
        BusResponse::RttHistogram(vec![1, 2]),
        BusResponse::Ack,
    ]));
}

#[test]
fn mappings_are_flattened_in_reply_order() {
    let responses = vec![
        BusResponse::Ack,
        BusResponse::MappedIps(vec![
            IpMapping {
                ip_address: String::from("100.64.1.2"),
                prefix_length: 32,
                tc_handle: TcHandle { major: 1, minor: 2 },
                cpu: 4,
            },
            IpMapping {
                ip_address: String::from("100.64.1.3"),
                prefix_length: 24,
                tc_handle: TcHandle { major: 1, minor: 3 },
                cpu: 5,
            },
        ]),
        BusResponse::MappedIps(vec![IpMapping {
            ip_address: String::from("2001:db8::1"),
            prefix_length: 128,
            tc_handle: TcHandle { major: 2, minor: 1 },
            cpu: 0,
        }]),
    ];
    let out = mappings_from_responses(&responses);
    assert_eq!(out.len(), 3);
    assert_eq!(out[0].ip_address.as_str(), "100.64.1.2");
    assert_eq!(out[0].prefix_length, 32);
    assert_eq!(out[0].tc_handle, (1, 2));
    assert_eq!(out[0].cpu, 4);
    assert_eq!(out[1].ip_address.as_str(), "100.64.1.3");
    assert_eq!(out[2].ip_address.as_str(), "2001:db8::1");
    assert_eq!(out[2].tc_handle, (2, 1));
}

#[test]
fn mappings_of_an_empty_reply_are_empty() {
    assert!(mappings_from_responses(&Vec::new()).is_empty());
}
