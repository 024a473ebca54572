//! The attached program's shared configuration region.
//!
//! Before the packet program goes live, the attachment sequence records the
//! operating direction and, for the on-a-stick configuration, the two VLAN
//! tags.  The program reads this region on every packet, so it must be
//! written before the program is attached.  The region holds a direction
//! byte (1 = internet, 2 = ISP network, 3 = on-a-stick) and two 16-bit VLAN
//! tags in network byte order (big-endian).

use vstd::prelude::*;

verus! {

/// Which side of the network an interface faces, or, for a single interface
/// carrying both sides, the pair of VLAN tags that distinguishes them.
#[derive(Clone, Copy, Debug, PartialEq, Eq, Structural)]
pub enum InterfaceDirection {
    Internet,
    IspNetwork,
    OnAStick(u16, u16),
}

/// A 16-bit value stored as two bytes in network byte order.
#[derive(Clone, Copy, Debug, PartialEq, Eq, Structural)]
pub struct BigEndianU16 {
    pub hi: u8,
    pub lo: u8,
}

/// The shared configuration region as the packet program sees it.
#[derive(Clone, Copy, Debug, PartialEq, Eq, Structural)]
pub struct ConfigRegion {
    pub direction: u8,
    pub internet_vlan: BigEndianU16,
    pub isp_vlan: BigEndianU16,
}

/// The direction byte written for a given direction.
pub open spec fn spec_direction_code(d: InterfaceDirection) -> u8 {
    match d {
        InterfaceDirection::Internet => 1,
        InterfaceDirection::IspNetwork => 2,
        InterfaceDirection::OnAStick(_, _) => 3,
    }
}

/// The big-endian encoding of a 16-bit tag.
pub open spec fn spec_encode_u16(v: u16) -> BigEndianU16 {
    BigEndianU16 { hi: (v / 256) as u8, lo: (v % 256) as u8 }
}

/// The value a big-endian byte pair stands for.
pub open spec fn spec_decode_u16(b: BigEndianU16) -> u16 {
    (b.hi * 256 + b.lo) as u16
}

/// The whole region written for a given direction; directions without VLAN
/// tags leave both tags zero.
pub open spec fn spec_encode_region(d: InterfaceDirection) -> ConfigRegion {
    match d {
        InterfaceDirection::OnAStick(internet, isp) => ConfigRegion {
            direction: 3,
            internet_vlan: spec_encode_u16(internet),
            isp_vlan: spec_encode_u16(isp),
        },
        _ => ConfigRegion {
            direction: spec_direction_code(d),
            internet_vlan: spec_encode_u16(0),
            isp_vlan: spec_encode_u16(0),
        },
    }
}

/// The direction a region read back from the program stands for, if its
/// direction byte is one of the three defined codes.
pub open spec fn spec_decode_region(r: ConfigRegion) -> Option<InterfaceDirection> {
    if r.direction == 1 {
        Some(InterfaceDirection::Internet)
    } else if r.direction == 2 {
        Some(InterfaceDirection::IspNetwork)
    } else if r.direction == 3 {
        Some(
            InterfaceDirection::OnAStick(
                spec_decode_u16(r.internet_vlan),
                spec_decode_u16(r.isp_vlan),
            ),
        )
    } else {
        None
    }
}

/// Encodes a 16-bit VLAN tag in network byte order.
pub fn encode_u16(v: u16) -> (r: BigEndianU16)
    ensures
        r == spec_encode_u16(v),
{
    BigEndianU16 { hi: (v / 256) as u8, lo: (v % 256) as u8 }
}

/// Reads a 16-bit VLAN tag back out of its network-byte-order encoding.
pub fn decode_u16(b: BigEndianU16) -> (r: u16)
    ensures
        r == spec_decode_u16(b),
{
    b.hi as u16 * 256 + b.lo as u16
}

/// The direction byte for a direction.
pub fn direction_code(d: InterfaceDirection) -> (r: u8)
    ensures
        r == spec_direction_code(d),
{
    match d {
        InterfaceDirection::Internet => 1,
        InterfaceDirection::IspNetwork => 2,
        InterfaceDirection::OnAStick(_, _) => 3,
    }
}

/// Builds the configuration region that must be recorded before the program
/// is attached.
pub fn encode_region(d: InterfaceDirection) -> (r: ConfigRegion)
    ensures
        r == spec_encode_region(d),
{
    match d {
        InterfaceDirection::OnAStick(internet, isp) => ConfigRegion {
            direction: 3,
            internet_vlan: encode_u16(internet),
            isp_vlan: encode_u16(isp),
        },
        _ => ConfigRegion {
            direction: direction_code(d),
            internet_vlan: encode_u16(0),
            isp_vlan: encode_u16(0),
        },
    }
}

/// Reads a configuration region back into the direction it was written for,
/// or `None` if the direction byte is not a defined code.
pub fn decode_region(r: ConfigRegion) -> (d: Option<InterfaceDirection>)
    ensures
        d == spec_decode_region(r),
{
    if r.direction == 1 {
        Some(InterfaceDirection::Internet)
    } else if r.direction == 2 {
        Some(InterfaceDirection::IspNetwork)
    } else if r.direction == 3 {
        Some(InterfaceDirection::OnAStick(decode_u16(r.internet_vlan), decode_u16(r.isp_vlan)))
    } else {
        None
    }
}

/// Round trip: for every supported direction, the configuration region read
/// back after attachment decodes to exactly the direction that was written.
pub proof fn lemma_config_region_roundtrip(d: InterfaceDirection)
    ensures
        spec_decode_region(spec_encode_region(d)) == Some(d),
{
}

/// Round trip at the tag level: a 16-bit tag survives its network-byte-order
/// encoding unchanged.
pub proof fn lemma_vlan_tag_roundtrip(v: u16)
    ensures
        spec_decode_u16(spec_encode_u16(v)) == v,
{
}

} // verus!
