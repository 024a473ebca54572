use lqos::config_region::{
    decode_region, decode_u16, direction_code, encode_region, encode_u16, BigEndianU16,
    ConfigRegion, InterfaceDirection,
};

#[test]
fn direction_codes_match_the_wire_protocol() {
    assert_eq!(direction_code(InterfaceDirection::Internet), 1);
    assert_eq!(direction_code(InterfaceDirection::IspNetwork), 2);
    assert_eq!(direction_code(InterfaceDirection::OnAStick(100, 200)), 3);
}

#[test]
fn vlan_tags_are_big_endian() {
    let b = encode_u16(0x1234);
    assert_eq!(b.hi, 0x12);
    assert_eq!(b.lo, 0x34);
    assert_eq!(decode_u16(b), 0x1234);
}

#[test]
fn on_a_stick_region_holds_direction_3_and_both_tags() {
    let region = encode_region(InterfaceDirection::OnAStick(100, 200));
    assert_eq!(region.direction, 3);
    assert_eq!(region.internet_vlan, BigEndianU16 { hi: 0, lo: 100 });
    assert_eq!(region.isp_vlan, BigEndianU16 { hi: 0, lo: 200 });
}

#[test]
fn every_direction_round_trips_through_the_region() {
    let directions = [
        InterfaceDirection::Internet,
        InterfaceDirection::IspNetwork,
        InterfaceDirection::OnAStick(100, 200),
        InterfaceDirection::OnAStick(0, 0),
        InterfaceDirection::OnAStick(0xFFFF, 0x0A0B),
    ];
    for d in directions {
        assert_eq!(decode_region(encode_region(d)), Some(d));
    }
}

#[test]
fn internet_direction_leaves_tags_zero() {
    let region = encode_region(InterfaceDirection::Internet);
    assert_eq!(region.direction, 1);
    assert_eq!(region.internet_vlan, BigEndianU16 { hi: 0, lo: 0 });
    assert_eq!(region.isp_vlan, BigEndianU16 { hi: 0, lo: 0 });
}

#[test]
fn an_undefined_direction_byte_decodes_to_none() {
    let region = ConfigRegion {
        direction: 4,
        internet_vlan: BigEndianU16 { hi: 0, lo: 0 },
        isp_vlan: BigEndianU16 { hi: 0, lo: 0 },
    };
    assert_eq!(decode_region(region), None);
}
