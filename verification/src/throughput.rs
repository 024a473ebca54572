//! Per-host traffic counters and the host-counter harvester.
//!
//! The attached program maintains one `HostCounter` per CPU for every host
//! key, so that packet processing never contends across cores.  The
//! logically merged per-host total therefore has to be produced here, by
//! summing each field across the key's per-CPU slice.  Sums are saturating
//! in the executable path; since the counters grow monotonically and wrap
//! is not expected within a process lifetime, the exactness lemma below
//! shows the saturating total equals the exact field-wise sum whenever it
//! fits the field.

use vstd::prelude::*;
use crate::per_cpu_map::{BpfPerCpuMap, MapVisitor};

verus! {

/// A host key: the representation of an IP address used to index the
/// per-host traffic counters.
#[derive(Clone, Copy, Debug, Default, PartialEq, Eq)]
pub struct XdpIpAddress {
    pub ip: [u8; 16],
}

/// One per-host, per-CPU traffic sample, mirroring the in-kernel layout
/// field for field.  Created and incremented exclusively by the attached
/// program; read-only here.
#[derive(Clone, Copy, Debug, Default)]
pub struct HostCounter {
    /// Download bytes counter (keeps incrementing).
    pub download_bytes: u64,
    /// Upload bytes counter (keeps incrementing).
    pub upload_bytes: u64,
    /// Download packets counter (keeps incrementing).
    pub download_packets: u64,
    /// Upload packets counter (keeps incrementing).
    pub upload_packets: u64,
    /// Mapped traffic-class handle, 0 if there is not one.
    pub tc_handle: u32,
    /// Time last seen, in nanoseconds since kernel boot.
    pub last_seen: u64,
}

/// The sum of a sequence of integers.
pub open spec fn int_sum(s: Seq<int>) -> int
    decreases s.len(),
{
    if s.len() == 0 {
        0
    } else {
        int_sum(s.drop_last()) + s.last()
    }
}

/// A sequence of nonnegative integers.
pub open spec fn all_nonneg(s: Seq<int>) -> bool {
    forall|i: int| 0 <= i < s.len() ==> s[i] >= 0
}

/// Extending a prefix by one element adds that element to the prefix sum,
/// and no prefix of a nonnegative sequence sums to more than the whole.
pub proof fn lemma_int_sum_step(s: Seq<int>, i: int)
    requires
        0 <= i < s.len(),
        all_nonneg(s),
    ensures
        int_sum(s.take(i + 1)) == int_sum(s.take(i)) + s[i],
        int_sum(s.take(i + 1)) <= int_sum(s),
    decreases s.len() - i,
{
    assert(s.take(i + 1).drop_last() =~= s.take(i));
    assert(s.take(i + 1).last() == s[i]);
    if i + 1 == s.len() {
        assert(s.take(i + 1) =~= s);
    } else {
        lemma_int_sum_step(s, i + 1);
    }
}

/// A nonnegative sequence sums to a nonnegative total.
pub proof fn lemma_int_sum_nonneg(s: Seq<int>)
    requires
        all_nonneg(s),
    ensures
        int_sum(s) >= 0,
    decreases s.len(),
{
    if s.len() > 0 {
        assert(all_nonneg(s.drop_last()));
        lemma_int_sum_nonneg(s.drop_last());
    }
}

/// A prefix of a nonnegative sequence sums to a nonnegative total.
pub proof fn lemma_int_sum_take_nonneg(s: Seq<int>, i: int)
    requires
        all_nonneg(s),
        0 <= i <= s.len(),
    ensures
        int_sum(s.take(i)) >= 0,
{
    assert(all_nonneg(s.take(i)));
    lemma_int_sum_nonneg(s.take(i));
}

/// The download-bytes column of a per-CPU slice.
pub open spec fn col_download_bytes(s: Seq<HostCounter>) -> Seq<int> {
    s.map_values(|c: HostCounter| c.download_bytes as int)
}

/// The upload-bytes column of a per-CPU slice.
pub open spec fn col_upload_bytes(s: Seq<HostCounter>) -> Seq<int> {
    s.map_values(|c: HostCounter| c.upload_bytes as int)
}

/// The download-packets column of a per-CPU slice.
pub open spec fn col_download_packets(s: Seq<HostCounter>) -> Seq<int> {
    s.map_values(|c: HostCounter| c.download_packets as int)
}

/// The upload-packets column of a per-CPU slice.
pub open spec fn col_upload_packets(s: Seq<HostCounter>) -> Seq<int> {
    s.map_values(|c: HostCounter| c.upload_packets as int)
}

/// The traffic-class-handle column of a per-CPU slice.
pub open spec fn col_tc_handle(s: Seq<HostCounter>) -> Seq<int> {
    s.map_values(|c: HostCounter| c.tc_handle as int)
}

/// The last-seen column of a per-CPU slice.
pub open spec fn col_last_seen(s: Seq<HostCounter>) -> Seq<int> {
    s.map_values(|c: HostCounter| c.last_seen as int)
}

/// Every column of a per-CPU slice is a nonnegative sequence.
pub proof fn lemma_cols_nonneg(s: Seq<HostCounter>)
    ensures
        all_nonneg(col_download_bytes(s)),
        all_nonneg(col_upload_bytes(s)),
        all_nonneg(col_download_packets(s)),
        all_nonneg(col_upload_packets(s)),
        all_nonneg(col_tc_handle(s)),
        all_nonneg(col_last_seen(s)),
{
    assert forall|i: int| 0 <= i < s.len() implies col_download_bytes(s)[i] >= 0 by {}
    assert forall|i: int| 0 <= i < s.len() implies col_upload_bytes(s)[i] >= 0 by {}
    assert forall|i: int| 0 <= i < s.len() implies col_download_packets(s)[i] >= 0 by {}
    assert forall|i: int| 0 <= i < s.len() implies col_upload_packets(s)[i] >= 0 by {}
    assert forall|i: int| 0 <= i < s.len() implies col_tc_handle(s)[i] >= 0 by {}
    assert forall|i: int| 0 <= i < s.len() implies col_last_seen(s)[i] >= 0 by {}
}

/// An integer clamped into a 64-bit counter field.
pub open spec fn clamp_u64(x: int) -> u64 {
    if x > u64::MAX {
        u64::MAX as u64
    } else {
        x as u64
    }
}

/// An integer clamped into a 32-bit counter field.
pub open spec fn clamp_u32(x: int) -> u32 {
    if x > u32::MAX {
        u32::MAX as u32
    } else {
        x as u32
    }
}

/// The merged per-host total of a per-CPU slice: every field summed down
/// its column, saturating at the field's width.
pub open spec fn spec_aggregate(s: Seq<HostCounter>) -> HostCounter {
    HostCounter {
        download_bytes: clamp_u64(int_sum(col_download_bytes(s))),
        upload_bytes: clamp_u64(int_sum(col_upload_bytes(s))),
        download_packets: clamp_u64(int_sum(col_download_packets(s))),
        upload_packets: clamp_u64(int_sum(col_upload_packets(s))),
        tc_handle: clamp_u32(int_sum(col_tc_handle(s))),
        last_seen: clamp_u64(int_sum(col_last_seen(s))),
    }
}

/// Every field's exact column sum fits its field, as monotone counters are
/// expected to within a process lifetime.
pub open spec fn spec_sums_fit(s: Seq<HostCounter>) -> bool {
    &&& int_sum(col_download_bytes(s)) <= u64::MAX
    &&& int_sum(col_upload_bytes(s)) <= u64::MAX
    &&& int_sum(col_download_packets(s)) <= u64::MAX
    &&& int_sum(col_upload_packets(s)) <= u64::MAX
    &&& int_sum(col_tc_handle(s)) <= u32::MAX
    &&& int_sum(col_last_seen(s)) <= u64::MAX
}

/// Exactness: whenever the exact column sums fit their fields, the
/// saturating merged total is the exact field-wise sum across the per-CPU
/// slice.
pub proof fn lemma_aggregate_exact_when_sums_fit(s: Seq<HostCounter>)
    requires
        spec_sums_fit(s),
    ensures
        spec_aggregate(s).download_bytes == int_sum(col_download_bytes(s)),
        spec_aggregate(s).upload_bytes == int_sum(col_upload_bytes(s)),
        spec_aggregate(s).download_packets == int_sum(col_download_packets(s)),
        spec_aggregate(s).upload_packets == int_sum(col_upload_packets(s)),
        spec_aggregate(s).tc_handle == int_sum(col_tc_handle(s)),
        spec_aggregate(s).last_seen == int_sum(col_last_seen(s)),
{
    lemma_cols_nonneg(s);
    lemma_int_sum_nonneg(col_download_bytes(s));
    lemma_int_sum_nonneg(col_upload_bytes(s));
    lemma_int_sum_nonneg(col_download_packets(s));
    lemma_int_sum_nonneg(col_upload_packets(s));
    lemma_int_sum_nonneg(col_tc_handle(s));
    lemma_int_sum_nonneg(col_last_seen(s));
}

/// Sums one per-CPU slice into the merged per-host total, field by field.
pub fn aggregate_counters(per_cpu: &Vec<HostCounter>) -> (total: HostCounter)
    ensures
        total == spec_aggregate(per_cpu@),
{
    let ghost s = per_cpu@;
    let mut download_bytes: u64 = 0;
    let mut upload_bytes: u64 = 0;
    let mut download_packets: u64 = 0;
    let mut upload_packets: u64 = 0;
    let mut tc_handle: u32 = 0;
    let mut last_seen: u64 = 0;
    let mut i: usize = 0;
    while i < per_cpu.len()
        invariant
            0 <= i <= s.len(),
            s == per_cpu@,
            download_bytes == clamp_u64(int_sum(col_download_bytes(s).take(i as int))),
            upload_bytes == clamp_u64(int_sum(col_upload_bytes(s).take(i as int))),
            download_packets == clamp_u64(int_sum(col_download_packets(s).take(i as int))),
            upload_packets == clamp_u64(int_sum(col_upload_packets(s).take(i as int))),
            tc_handle == clamp_u32(int_sum(col_tc_handle(s).take(i as int))),
            last_seen == clamp_u64(int_sum(col_last_seen(s).take(i as int))),
        decreases s.len() - i,
    {
        let c = per_cpu[i];
        proof {
            lemma_cols_nonneg(s);
            lemma_int_sum_step(col_download_bytes(s), i as int);
            lemma_int_sum_step(col_upload_bytes(s), i as int);
            lemma_int_sum_step(col_download_packets(s), i as int);
            lemma_int_sum_step(col_upload_packets(s), i as int);
            lemma_int_sum_step(col_tc_handle(s), i as int);
            lemma_int_sum_step(col_last_seen(s), i as int);
            lemma_int_sum_take_nonneg(col_download_bytes(s), i as int);
            lemma_int_sum_take_nonneg(col_upload_bytes(s), i as int);
            lemma_int_sum_take_nonneg(col_download_packets(s), i as int);
            lemma_int_sum_take_nonneg(col_upload_packets(s), i as int);
            lemma_int_sum_take_nonneg(col_tc_handle(s), i as int);
            lemma_int_sum_take_nonneg(col_last_seen(s), i as int);
        }
        download_bytes = download_bytes.saturating_add(c.download_bytes);
        upload_bytes = upload_bytes.saturating_add(c.upload_bytes);
        download_packets = download_packets.saturating_add(c.download_packets);
        upload_packets = upload_packets.saturating_add(c.upload_packets);
        tc_handle = tc_handle.saturating_add(c.tc_handle);
        last_seen = last_seen.saturating_add(c.last_seen);
        i += 1;
    }
    proof {
        assert(col_download_bytes(s).take(s.len() as int) =~= col_download_bytes(s));
        assert(col_upload_bytes(s).take(s.len() as int) =~= col_upload_bytes(s));
        assert(col_download_packets(s).take(s.len() as int) =~= col_download_packets(s));
        assert(col_upload_packets(s).take(s.len() as int) =~= col_upload_packets(s));
        assert(col_tc_handle(s).take(s.len() as int) =~= col_tc_handle(s));
        assert(col_last_seen(s).take(s.len() as int) =~= col_last_seen(s));
    }
    HostCounter { download_bytes, upload_bytes, download_packets, upload_packets, tc_handle, last_seen }
}

/// The host-counter harvester: merges every key's per-CPU slice into one
/// aggregated counter per host.  Keys keep their cursor order; no ordering
/// across hosts is promised beyond that.
pub fn collect_host_counters(map: &BpfPerCpuMap<XdpIpAddress, HostCounter>) -> (out: Vec<
    (XdpIpAddress, HostCounter),
>)
    requires
        map.wf(),
    ensures
        out@.len() == map.entries@.len(),
        forall|i: int|
            0 <= i < out@.len() ==> (#[trigger] out@[i]).0 == map.entries@[i].key && out@[i].1
                == spec_aggregate(map.entries@[i].per_cpu@),
{
    let mut out: Vec<(XdpIpAddress, HostCounter)> = Vec::new();
    let mut i: usize = 0;
    while i < map.entries.len()
        invariant
            0 <= i <= map.entries@.len(),
            out@.len() == i,
            forall|j: int|
                0 <= j < i ==> (#[trigger] out@[j]).0 == map.entries@[j].key && out@[j].1
                    == spec_aggregate(map.entries@[j].per_cpu@),
        decreases map.entries@.len() - i,
    {
        let total = aggregate_counters(&map.entries[i].per_cpu);
        out.push((map.entries[i].key, total));
        i += 1;
    }
    out
}

/// Iterates every throughput entry, handing each key and its per-CPU slice
/// to the visitor in turn.  A map that could not be opened is not fatal:
/// the scan simply makes no visits, and the visitor is left untouched.
pub fn throughput_for_each<Vis: MapVisitor<XdpIpAddress, HostCounter>>(
    map: &Option<BpfPerCpuMap<XdpIpAddress, HostCounter>>,
    visitor: &mut Vis,
) -> (n: usize)
    requires
        (match map {
            Some(m) => m.wf() && old(visitor).cpus() == m.num_cpus,
            None => true,
        }),
    ensures
        (match map {
            Some(m) => n == m.entries@.len() && final(visitor).cpus() == old(visitor).cpus()
                && final(visitor).log() == old(visitor).log() + m.spec_contents(),
            None => n == 0 && *final(visitor) == *old(visitor),
        }),
{
    match map {
        Some(m) => m.for_each(visitor),
        None => 0,
    }
}

} // verus!
