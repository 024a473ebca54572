//! The dashboard-facing reply readers.
//!
//! The web layer asks the control daemon for throughput, top talkers,
//! round-trip times and host counts, then reduces the reply to what the
//! dashboard shows.  Those reductions — which response wins, which match
//! is taken first, what is counted — are verified here; the HTTP plumbing
//! and the shared caches stay in the unverified shell.

use vstd::prelude::*;
use vstd::string::StringSliceAdditionalSpecFns;
use crate::bus::{BusResponse, IpStats};

verus! {

/// Total system throughput per second, in (download, upload) pairs.
#[derive(Clone, Copy, Debug, Default, PartialEq, Eq)]
pub struct ThroughputPerSecond {
    pub bits_per_second: (u64, u64),
    pub packets_per_second: (u64, u64),
    pub shaped_bits_per_second: (u64, u64),
}

/// The all-zero throughput reported when no response carries one.
pub open spec fn spec_zero_throughput() -> ThroughputPerSecond {
    ThroughputPerSecond {
        bits_per_second: (0, 0),
        packets_per_second: (0, 0),
        shaped_bits_per_second: (0, 0),
    }
}

/// The throughput a reply stands for: the last `CurrentThroughput`
/// response wins, and a reply without one is all zero.
pub open spec fn spec_fold_throughput(rs: Seq<BusResponse>) -> ThroughputPerSecond
    decreases rs.len(),
{
    if rs.len() == 0 {
        spec_zero_throughput()
    } else {
        match rs.last() {
            BusResponse::CurrentThroughput {
                bits_per_second,
                packets_per_second,
                shaped_bits_per_second,
            } => ThroughputPerSecond { bits_per_second, packets_per_second, shaped_bits_per_second },
            _ => spec_fold_throughput(rs.drop_last()),
        }
    }
}

/// Reduces a reply to the throughput it reports.
pub fn fold_throughput(responses: &Vec<BusResponse>) -> (t: ThroughputPerSecond)
    ensures
        t == spec_fold_throughput(responses@),
{
    let mut t = ThroughputPerSecond {
        bits_per_second: (0, 0),
        packets_per_second: (0, 0),
        shaped_bits_per_second: (0, 0),
    };
    let n = responses.len();
    let mut i: usize = 0;
    proof {
        assert(responses@.take(0) =~= Seq::<BusResponse>::empty());
    }
    while i < n
        invariant
            0 <= i <= n,
            n == responses@.len(),
            t == spec_fold_throughput(responses@.take(i as int)),
        decreases n - i,
    {
        proof {
            assert(responses@.take(i + 1).drop_last() =~= responses@.take(i as int));
            assert(responses@.take(i + 1).last() == responses@[i as int]);
        }
        match &responses[i] {
            BusResponse::CurrentThroughput {
                bits_per_second,
                packets_per_second,
                shaped_bits_per_second,
            } => {
                t = ThroughputPerSecond {
                    bits_per_second: *bits_per_second,
                    packets_per_second: *packets_per_second,
                    shaped_bits_per_second: *shaped_bits_per_second,
                };
            },
            _ => {},
        }
        i += 1;
    }
    proof {
        assert(responses@.take(n as int) =~= responses@);
    }
    t
}

/// The payload of the first response a spec-level selector accepts.
pub open spec fn spec_first_top_downloaders(rs: Seq<BusResponse>) -> Option<Seq<IpStats>>
    decreases rs.len(),
{
    if rs.len() == 0 {
        None
    } else {
        match rs[0] {
            BusResponse::TopDownloaders(list) => Some(list@),
            _ => spec_first_top_downloaders(rs.skip(1)),
        }
    }
}

/// The first worst-round-trip-time payload of a reply.
pub open spec fn spec_first_worst_rtt(rs: Seq<BusResponse>) -> Option<Seq<IpStats>>
    decreases rs.len(),
{
    if rs.len() == 0 {
        None
    } else {
        match rs[0] {
            BusResponse::WorstRtt(list) => Some(list@),
            _ => spec_first_worst_rtt(rs.skip(1)),
        }
    }
}

/// The first histogram payload of a reply.
pub open spec fn spec_first_rtt_histogram(rs: Seq<BusResponse>) -> Option<Seq<u32>>
    decreases rs.len(),
{
    if rs.len() == 0 {
        None
    } else {
        match rs[0] {
            BusResponse::RttHistogram(list) => Some(list@),
            _ => spec_first_rtt_histogram(rs.skip(1)),
        }
    }
}

/// The first top-downloaders payload of a reply, if any: the dashboard
/// returns the first such response and ignores the rest.
pub fn extract_top_downloaders(responses: &Vec<BusResponse>) -> (r: Option<&Vec<IpStats>>)
    ensures
        (match r {
            Some(v) => spec_first_top_downloaders(responses@) == Some(v@),
            None => spec_first_top_downloaders(responses@) is None,
        }),
{
    let n = responses.len();
    let mut i: usize = 0;
    proof {
        assert(responses@.skip(0) =~= responses@);
    }
    while i < n
        invariant
            0 <= i <= n,
            n == responses@.len(),
            spec_first_top_downloaders(responses@) == spec_first_top_downloaders(
                responses@.skip(i as int),
            ),
        decreases n - i,
    {
        proof {
            assert(responses@.skip(i as int)[0] == responses@[i as int]);
            assert(responses@.skip(i as int).skip(1) =~= responses@.skip(i + 1));
        }
        match &responses[i] {
            BusResponse::TopDownloaders(list) => {
                return Some(list);
            },
            _ => {},
        }
        i += 1;
    }
    proof {
        assert(responses@.skip(n as int) =~= Seq::<BusResponse>::empty());
    }
    None
}

/// The first worst-round-trip-time payload of a reply, if any.
pub fn extract_worst_rtt(responses: &Vec<BusResponse>) -> (r: Option<&Vec<IpStats>>)
    ensures
        (match r {
            Some(v) => spec_first_worst_rtt(responses@) == Some(v@),
            None => spec_first_worst_rtt(responses@) is None,
        }),
{
    let n = responses.len();
    let mut i: usize = 0;
    proof {
        assert(responses@.skip(0) =~= responses@);
    }
    while i < n
        invariant
            0 <= i <= n,
            n == responses@.len(),
            spec_first_worst_rtt(responses@) == spec_first_worst_rtt(responses@.skip(i as int)),
        decreases n - i,
    {
        proof {
            assert(responses@.skip(i as int)[0] == responses@[i as int]);
            assert(responses@.skip(i as int).skip(1) =~= responses@.skip(i + 1));
        }
        match &responses[i] {
            BusResponse::WorstRtt(list) => {
                return Some(list);
            },
            _ => {},
        }
        i += 1;
    }
    proof {
        assert(responses@.skip(n as int) =~= Seq::<BusResponse>::empty());
    }
    None
}

/// The first histogram payload of a reply, if any.
pub fn extract_rtt_histogram(responses: &Vec<BusResponse>) -> (r: Option<&Vec<u32>>)
    ensures
        (match r {
            Some(v) => spec_first_rtt_histogram(responses@) == Some(v@),
            None => spec_first_rtt_histogram(responses@) is None,
        }),
{
    let n = responses.len();
    let mut i: usize = 0;
    proof {
        assert(responses@.skip(0) =~= responses@);
    }
    while i < n
        invariant
            0 <= i <= n,
            n == responses@.len(),
            spec_first_rtt_histogram(responses@) == spec_first_rtt_histogram(
                responses@.skip(i as int),
            ),
        decreases n - i,
    {
        proof {
            assert(responses@.skip(i as int)[0] == responses@[i as int]);
            assert(responses@.skip(i as int).skip(1) =~= responses@.skip(i + 1));
        }
        match &responses[i] {
            BusResponse::RttHistogram(list) => {
                return Some(list);
            },
            _ => {},
        }
        i += 1;
    }
    proof {
        assert(responses@.skip(n as int) =~= Seq::<BusResponse>::empty());
    }
    None
}

/// How many flags are set.
pub open spec fn spec_count_true(s: Seq<bool>) -> int
    decreases s.len(),
{
    if s.len() == 0 {
        0
    } else {
        spec_count_true(s.drop_last()) + if s.last() {
            1int
        } else {
            0int
        }
    }
}

/// Counts the hosts flagged as truly unknown: the dashboard's host-count
/// reduction over the per-host "not shaped" decisions.
pub fn count_flagged(flags: &Vec<bool>) -> (n: usize)
    ensures
        n == spec_count_true(flags@),
{
    let len = flags.len();
    let mut n: usize = 0;
    let mut i: usize = 0;
    proof {
        assert(flags@.take(0) =~= Seq::<bool>::empty());
    }
    while i < len
        invariant
            0 <= i <= len,
            len == flags@.len(),
            n <= i,
            n == spec_count_true(flags@.take(i as int)),
        decreases len - i,
    {
        proof {
            assert(flags@.take(i + 1).drop_last() =~= flags@.take(i as int));
            assert(flags@.take(i + 1).last() == flags@[i as int]);
        }
        if flags[i] {
            n += 1;
        }
        i += 1;
    }
    proof {
        assert(flags@.take(len as int) =~= flags@);
    }
    n
}

/// The (shaped devices, truly unknown hosts) pair the dashboard shows,
/// with each count narrowed to 32 bits as it is transmitted.
pub fn host_counts_pair(n_devices: usize, really_unknown: usize) -> (r: (u32, u32))
    ensures
        r.0 == n_devices as u32,
        r.1 == really_unknown as u32,
{
    let d = #[verifier::truncate] (n_devices as u32);
    let u = #[verifier::truncate] (really_unknown as u32);
    (d, u)
}

/// One shaped circuit, as configuration describes it.
#[derive(Clone, Debug, PartialEq)]
pub struct ShapedDevice {
    pub circuit_id: String,
    pub circuit_name: String,
    pub download_max_mbps: u32,
    pub download_min_mbps: u32,
}

/// The first device of a circuit id, if any.
pub open spec fn spec_find_circuit(devices: Seq<ShapedDevice>, circuit_id: Seq<char>) -> Option<
    int,
>
    decreases devices.len(),
{
    if devices.len() == 0 {
        None
    } else if devices[0].circuit_id@ == circuit_id {
        Some(0)
    } else {
        match spec_find_circuit(devices.skip(1), circuit_id) {
            Some(i) => Some(i + 1),
            None => None,
        }
    }
}

/// Finds the first shaped device carrying the given circuit id.
pub fn find_circuit(devices: &Vec<ShapedDevice>, circuit_id: &String) -> (r: Option<usize>)
    ensures
        (match r {
            Some(i) => spec_find_circuit(devices@, circuit_id@) == Some(i as int) && i
                < devices@.len() && devices@[i as int].circuit_id@ == circuit_id@,
            None => spec_find_circuit(devices@, circuit_id@) is None,
        }),
{
    proof {
        lemma_find_circuit_characterization(devices@, circuit_id@);
    }
    let n = devices.len();
    let mut i: usize = 0;
    while i < n
        invariant
            0 <= i <= n,
            n == devices@.len(),
            forall|j: int| 0 <= j < i ==> (#[trigger] devices@[j]).circuit_id@ != circuit_id@,
            (match spec_find_circuit(devices@, circuit_id@) {
                Some(k) => 0 <= k < devices@.len() && devices@[k].circuit_id@ == circuit_id@ && (
                forall|j: int| 0 <= j < k ==> (#[trigger] devices@[j]).circuit_id@ != circuit_id@),
                None => forall|j: int|
                    0 <= j < devices@.len() ==> (#[trigger] devices@[j]).circuit_id@ != circuit_id@,
            }),
        decreases n - i,
    {
        if devices[i].circuit_id.eq(circuit_id) {
            return Some(i);
        }
        i += 1;
    }
    None
}

/// What the first matching index means: it carries the circuit id and no
/// earlier device does; `None` means no device carries it.
pub proof fn lemma_find_circuit_characterization(devices: Seq<ShapedDevice>, circuit_id: Seq<char>)
    ensures
        (match spec_find_circuit(devices, circuit_id) {
            Some(k) => 0 <= k < devices.len() && devices[k].circuit_id@ == circuit_id && (
            forall|j: int| 0 <= j < k ==> (#[trigger] devices[j]).circuit_id@ != circuit_id),
            None => forall|j: int|
                0 <= j < devices.len() ==> (#[trigger] devices[j]).circuit_id@ != circuit_id,
        }),
    decreases devices.len(),
{
    if devices.len() > 0 && devices[0].circuit_id@ != circuit_id {
        lemma_find_circuit_characterization(devices.skip(1), circuit_id);
        let t = devices.skip(1);
        assert forall|j: int| 0 <= j < t.len() implies t[j] == devices[j + 1] by {}
        match spec_find_circuit(t, circuit_id) {
            Some(k) => {
                assert(devices[k + 1] == t[k]);
                assert forall|j: int|
                    0 <= j < k + 1 implies (#[trigger] devices[j]).circuit_id@ != circuit_id by {
                    if j > 0 {
                        assert(t[j - 1].circuit_id@ != circuit_id);
                    }
                }
            },
            None => {
                assert forall|j: int|
                    0 <= j < devices.len() implies (#[trigger] devices[j]).circuit_id@
                    != circuit_id by {
                    if j > 0 {
                        assert(t[j - 1].circuit_id@ != circuit_id);
                    }
                }
            },
        }
    }
}

/// The plan shown for a circuit id: the (maximum, minimum) download rate
/// of the first matching shaped device, or zeros when the id is empty or
/// matches no device.
pub open spec fn spec_circuit_plan(devices: Seq<ShapedDevice>, circuit_id: Seq<char>) -> (
    u32,
    u32,
) {
    if circuit_id.len() == 0 {
        (0, 0)
    } else {
        match spec_find_circuit(devices, circuit_id) {
            Some(i) => (devices[i].download_max_mbps, devices[i].download_min_mbps),
            None => (0, 0),
        }
    }
}

/// Looks up the plan a circuit id is shaped to.
pub fn circuit_plan(devices: &Vec<ShapedDevice>, circuit_id: &String) -> (p: (u32, u32))
    ensures
        p == spec_circuit_plan(devices@, circuit_id@),
{
    if circuit_id.as_str().is_empty() {
        return (0, 0);
    }
    match find_circuit(devices, circuit_id) {
        Some(i) => (devices[i].download_max_mbps, devices[i].download_min_mbps),
        None => (0, 0),
    }
}

} // verus!
