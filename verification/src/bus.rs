//! The control-bus boundary: the request and response catalogue that
//! carries this subsystem's values upstream, and the decisions the
//! scripting binding makes over bus replies.
//!
//! The wire protocol itself (length-prefixed binary frames over a local
//! socket) is an external collaborator and lives in the unverified shell;
//! this module holds the session and message shapes, the authentication
//! cookie, and the verified request-building and reply-reading logic.

use vstd::prelude::*;
use vstd::string::StringSliceAdditionalSpecFns;
use crate::tc_handle::{
    TcHandle, ParseError, spec_find_colon, spec_parse_tc_handle, spec_all_hex, spec_hex_value,
    find_colon_in, parse_hex_u32,
};

verus! {

/// One request to the control daemon.
#[derive(Clone, Debug, PartialEq)]
pub enum BusRequest {
    /// Are you alive?
    Ping,
    /// Map an IP address to a traffic-class flow on a CPU.
    MapIpToFlow { ip_address: String, tc_handle: TcHandle, cpu: u32, upload: bool },
    /// Unmap an IP address.
    DelIpFlow { ip_address: String, upload: bool },
    /// Clear all IP mappings.
    ClearIpFlow,
    /// List all IP mappings.
    ListIpFlow,
    /// The current total throughput.
    GetCurrentThroughput,
    /// The top downloaders in the given rank range.
    GetTopNDownloaders { start: u32, end: u32 },
    /// The worst round-trip times in the given rank range.
    GetWorstRtt { start: u32, end: u32 },
    /// The round-trip-time histogram.
    RttHistogram,
    /// Every host seen that is not shaped.
    AllUnknownIps,
}

/// One IP-to-flow mapping as the daemon reports it.
#[derive(Clone, Debug, PartialEq)]
pub struct IpMapping {
    pub ip_address: String,
    pub prefix_length: u32,
    pub tc_handle: TcHandle,
    pub cpu: u32,
}

/// Per-host statistics as the daemon reports them.
#[derive(Debug, PartialEq)]
pub struct IpStats {
    pub ip_address: String,
    pub bits_per_second: (u64, u64),
    pub packets_per_second: (u64, u64),
    pub tc_handle: TcHandle,
    pub circuit_id: String,
}

/// One response from the control daemon.
#[derive(Debug, PartialEq)]
pub enum BusResponse {
    /// Yes, alive.
    Ack,
    /// The current total throughput, in (download, upload) pairs.
    CurrentThroughput {
        bits_per_second: (u64, u64),
        packets_per_second: (u64, u64),
        shaped_bits_per_second: (u64, u64),
    },
    /// The IP mappings in force.
    MappedIps(Vec<IpMapping>),
    /// The top downloaders, highest first.
    TopDownloaders(Vec<IpStats>),
    /// The worst round-trip times, worst first.
    WorstRtt(Vec<IpStats>),
    /// The round-trip-time histogram buckets.
    RttHistogram(Vec<u32>),
    /// Every host seen that is not shaped.
    AllUnknownIps(Vec<IpStats>),
}

/// A session: the authentication cookie and an ordered list of requests.
#[derive(Clone, Debug, PartialEq)]
pub struct BusSession {
    pub auth_cookie: u32,
    pub requests: Vec<BusRequest>,
}

/// A reply: the same cookie and an ordered list of responses.
#[derive(Debug, PartialEq)]
pub struct BusReply {
    pub auth_cookie: u32,
    pub responses: Vec<BusResponse>,
}

/// The cookie value that marks a session as valid.
pub fn cookie_value() -> (r: u32)
    ensures
        r == 1234,
{
    1234
}

/// An IP mapping as the scripting binding presents it, field by field.
#[derive(Debug, PartialEq)]
pub struct PyIpMapping {
    pub ip_address: String,
    pub prefix_length: u32,
    pub tc_handle: (u16, u16),
    pub cpu: u32,
}

/// `b` with every `0x` occurrence removed, scanning left to right.
pub open spec fn spec_strip_0x(b: Seq<u8>) -> Seq<u8>
    decreases b.len(),
{
    if b.len() >= 2 && b[0] == 48 && b[1] == 120 {
        spec_strip_0x(b.skip(2))
    } else if b.len() >= 1 {
        seq![b[0]] + spec_strip_0x(b.skip(1))
    } else {
        Seq::empty()
    }
}

/// The digits of a CPU id: `0x` occurrences removed, then one optional
/// leading plus sign.
pub open spec fn spec_cpu_digits(b: Seq<u8>) -> Seq<u8> {
    let t = spec_strip_0x(b);
    if t.len() > 0 && t[0] == 43 {
        t.skip(1)
    } else {
        t
    }
}

/// The CPU id a piece of text stands for: its digits must be a nonempty
/// hexadecimal number fitting 32 bits.
pub open spec fn spec_parse_cpu(b: Seq<u8>) -> Option<u32> {
    let d = spec_cpu_digits(b);
    if d.len() > 0 && spec_all_hex(d) && spec_hex_value(d) <= u32::MAX {
        Some(spec_hex_value(d) as u32)
    } else {
        None
    }
}

/// Removes every `0x` occurrence from a byte string, left to right.
fn strip_0x(bytes: &[u8]) -> (out: Vec<u8>)
    ensures
        out@ == spec_strip_0x(bytes@),
{
    let n = bytes.len();
    let mut out: Vec<u8> = Vec::new();
    let mut i: usize = 0;
    proof {
        assert(bytes@.skip(0) =~= bytes@);
        assert(Seq::<u8>::empty() + spec_strip_0x(bytes@) =~= spec_strip_0x(bytes@));
    }
    while i < n
        invariant
            0 <= i <= n,
            n == bytes@.len(),
            spec_strip_0x(bytes@) == out@ + spec_strip_0x(bytes@.skip(i as int)),
        decreases n - i,
    {
        if i + 1 < n && bytes[i] == 48 && bytes[i + 1] == 120 {
            proof {
                assert(bytes@.skip(i as int).len() >= 2);
                assert(bytes@.skip(i as int)[0] == bytes@[i as int]);
                assert(bytes@.skip(i as int)[1] == bytes@[i + 1]);
                assert(bytes@.skip(i as int).skip(2) =~= bytes@.skip(i + 2));
            }
            i += 2;
        } else {
            proof {
                assert(bytes@.skip(i as int)[0] == bytes@[i as int]);
                if i + 1 <= n {
                    assert(bytes@.skip(i as int).skip(1) =~= bytes@.skip(i + 1));
                }
                assert((out@ + seq![bytes@[i as int]]) + spec_strip_0x(bytes@.skip(i + 1)) =~= out@
                    + (seq![bytes@[i as int]] + spec_strip_0x(bytes@.skip(i + 1))));
                assert(out@.push(bytes@[i as int]) =~= out@ + seq![bytes@[i as int]]);
            }
            out.push(bytes[i]);
            i += 1;
        }
    }
    proof {
        assert(bytes@.skip(n as int) =~= Seq::<u8>::empty());
        assert(out@ + Seq::<u8>::empty() =~= out@);
    }
    out
}

/// Parses a CPU id: hexadecimal, with any `0x` marker (anywhere, as a
/// plain textual removal) and an optional leading plus sign accepted.
pub fn parse_cpu_id(cpu: &str) -> (r: Option<u32>)
    ensures
        r == spec_parse_cpu(cpu.spec_bytes()),
{
    let stripped = strip_0x(cpu.as_bytes());
    let sl = stripped.as_slice();
    let digits = if sl.len() > 0 && sl[0] == 43 {
        &sl[1..sl.len()]
    } else {
        sl
    };
    proof {
        assert(digits@ =~= spec_cpu_digits(cpu.spec_bytes()));
    }
    parse_hex_u32(digits)
}

/// Builds the request that maps an IP address to a traffic-class flow:
/// the class id must have the (major):(minor) shape — its absence of a
/// colon is reported on its own — and the CPU id must be a hexadecimal
/// number.
pub fn parse_add_ip(ip: &str, classid: &str, cpu: &str, upload: bool) -> (r: Result<
    BusRequest,
    ParseError,
>)
    ensures
        spec_find_colon(classid.spec_bytes()) is None ==> r == Err::<BusRequest, ParseError>(
            ParseError::ClassIdFormat,
        ),
        spec_find_colon(classid.spec_bytes()) is Some ==> (match spec_parse_tc_handle(
            classid.spec_bytes(),
        ) {
            None => r == Err::<BusRequest, ParseError>(ParseError::TcHandleFormat),
            Some(h) => (match spec_parse_cpu(cpu.spec_bytes()) {
                None => r == Err::<BusRequest, ParseError>(ParseError::CpuFormat),
                Some(c) => (r matches Ok(q) && q matches BusRequest::MapIpToFlow {
                    ip_address,
                    tc_handle,
                    cpu,
                    upload: up,
                } && ip_address@ == ip@ && tc_handle == h && cpu == c && up == upload),
            }),
        }),
{
    if find_colon_in(classid.as_bytes()).is_none() {
        return Err(ParseError::ClassIdFormat);
    }
    let tc_handle = match TcHandle::from_string(classid) {
        Ok(h) => h,
        Err(_) => {
            return Err(ParseError::TcHandleFormat);
        },
    };
    let cpu_id = match parse_cpu_id(cpu) {
        Some(c) => c,
        None => {
            return Err(ParseError::CpuFormat);
        },
    };
    Ok(
        BusRequest::MapIpToFlow {
            ip_address: ip.to_owned(),
            tc_handle,
            cpu: cpu_id,
            upload,
        },
    )
}

/// Whether some response in a reply is an acknowledgement: the liveness
/// decision of the scripting binding's "is the daemon alive" check.
pub fn any_response_is_ack(responses: &Vec<BusResponse>) -> (r: bool)
    ensures
        r == exists|i: int| 0 <= i < responses@.len() && responses@[i] is Ack,
{
    let n = responses.len();
    let mut i: usize = 0;
    while i < n
        invariant
            0 <= i <= n,
            n == responses@.len(),
            forall|j: int| 0 <= j < i ==> !((#[trigger] responses@[j]) is Ack),
        decreases n - i,
    {
        if matches!(&responses[i], BusResponse::Ack) {
            return true;
        }
        i += 1;
    }
    false
}

/// The row a daemon-side mapping stands for.
pub open spec fn spec_row_of(m: IpMapping) -> (Seq<char>, u32, (u16, u16), u32) {
    (m.ip_address@, m.prefix_length, (m.tc_handle.major, m.tc_handle.minor), m.cpu)
}

/// The rows one response contributes: every mapping of a `MappedIps`
/// response, nothing from any other response.
pub open spec fn spec_rows_of_response(r: BusResponse) -> Seq<(Seq<char>, u32, (u16, u16), u32)> {
    match r {
        BusResponse::MappedIps(list) => list@.map_values(|m: IpMapping| spec_row_of(m)),
        _ => Seq::empty(),
    }
}

/// The rows a whole reply contributes, in reply order.
pub open spec fn spec_mapping_rows(rs: Seq<BusResponse>) -> Seq<(Seq<char>, u32, (u16, u16), u32)>
    decreases rs.len(),
{
    if rs.len() == 0 {
        Seq::empty()
    } else {
        spec_mapping_rows(rs.drop_last()) + spec_rows_of_response(rs.last())
    }
}

/// The row a binding-side mapping stands for.
pub open spec fn spec_py_row(p: PyIpMapping) -> (Seq<char>, u32, (u16, u16), u32) {
    (p.ip_address@, p.prefix_length, p.tc_handle, p.cpu)
}

/// Collects every IP mapping of a reply into the binding's presentation,
/// keeping reply order: exactly the rows of every `MappedIps` response,
/// with each handle split into its major:minor pair.
pub fn mappings_from_responses(responses: &Vec<BusResponse>) -> (out: Vec<PyIpMapping>)
    ensures
        out@.map_values(|p: PyIpMapping| spec_py_row(p)) == spec_mapping_rows(responses@),
{
    let n = responses.len();
    let mut out: Vec<PyIpMapping> = Vec::new();
    let mut i: usize = 0;
    while i < n
        invariant
            0 <= i <= n,
            n == responses@.len(),
            out@.map_values(|p: PyIpMapping| spec_py_row(p)) == spec_mapping_rows(
                responses@.take(i as int),
            ),
        decreases n - i,
    {
        match &responses[i] {
            BusResponse::MappedIps(list) => {
                let m = list.len();
                let mut k: usize = 0;
                while k < m
                    invariant
                        0 <= k <= m,
                        0 <= i < n,
                        n == responses@.len(),
                        m == list@.len(),
                        responses@[i as int] == BusResponse::MappedIps(*list),
                        out@.map_values(|p: PyIpMapping| spec_py_row(p)) == spec_mapping_rows(
                            responses@.take(i as int),
                        ) + list@.take(k as int).map_values(|x: IpMapping| spec_row_of(x)),
                    decreases m - k,
                {
                    let entry = PyIpMapping {
                        ip_address: list[k].ip_address.clone(),
                        prefix_length: list[k].prefix_length,
                        tc_handle: list[k].tc_handle.get_major_minor(),
                        cpu: list[k].cpu,
                    };
                    proof {
                        assert(out@.push(entry).map_values(|p: PyIpMapping| spec_py_row(p))
                            =~= out@.map_values(|p: PyIpMapping| spec_py_row(p)).push(
                            spec_py_row(entry),
                        ));
                        assert(list@.take(k + 1).map_values(|x: IpMapping| spec_row_of(x))
                            =~= list@.take(k as int).map_values(|x: IpMapping| spec_row_of(x)).push(
                            spec_row_of(list@[k as int]),
                        ));
                        assert(spec_mapping_rows(responses@.take(i as int)) + list@.take(
                            k as int,
                        ).map_values(|x: IpMapping| spec_row_of(x)).push(spec_row_of(list@[k as int]))
                            =~= (spec_mapping_rows(responses@.take(i as int)) + list@.take(
                            k as int,
                        ).map_values(|x: IpMapping| spec_row_of(x))).push(
                            spec_row_of(list@[k as int]),
                        ));
                    }
                    out.push(entry);
                    k += 1;
                }
                proof {
                    assert(responses@.take(i + 1).drop_last() =~= responses@.take(i as int));
                    assert(responses@.take(i + 1).last() == responses@[i as int]);
                    assert(list@.take(m as int) =~= list@);
                }
            },
            _ => {
                proof {
                    assert(responses@.take(i + 1).drop_last() =~= responses@.take(i as int));
                    assert(responses@.take(i + 1).last() == responses@[i as int]);
                    assert(out@.map_values(|p: PyIpMapping| spec_py_row(p)) + Seq::<
                        (Seq<char>, u32, (u16, u16), u32),
                    >::empty() =~= out@.map_values(|p: PyIpMapping| spec_py_row(p)));
                }
            },
        }
        i += 1;
    }
    proof {
        assert(responses@.take(n as int) =~= responses@);
    }
    out
}

} // verus!
