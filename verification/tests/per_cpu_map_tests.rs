use lqos::per_cpu_map::{BpfPerCpuMap, CollectingVisitor, MapEntry};
use lqos::throughput::{aggregate_counters, collect_host_counters, HostCounter, XdpIpAddress};

fn key(last: u8) -> XdpIpAddress {
    let mut ip = [0u8; 16];
    ip[15] = last;
    XdpIpAddress { ip }
}

fn counter(download_bytes: u64) -> HostCounter {
    HostCounter {
        download_bytes,
        ..Default::default()
    }
}

#[test]
fn snapshot_rejects_a_slice_of_the_wrong_width() {
    let entries = vec![
        MapEntry { key: key(1), per_cpu: vec![counter(1), counter(2)] },
        MapEntry { key: key(2), per_cpu: vec![counter(3)] },
    ];
    assert!(BpfPerCpuMap::new(2, entries).is_none());
}

#[test]
fn scan_of_an_empty_map_makes_zero_visits() {
    let map: BpfPerCpuMap<XdpIpAddress, HostCounter> = BpfPerCpuMap::new(4, Vec::new()).unwrap();
    let mut visitor = CollectingVisitor::new(4);
    let n = map.for_each(&mut visitor);
    assert_eq!(n, 0);
    assert!(visitor.rows.is_empty());
}

#[test]
fn scan_visits_each_key_once_with_the_full_width() {
    let entries = vec![
        MapEntry { key: key(1), per_cpu: vec![counter(1), counter(2), counter(3)] },
        MapEntry { key: key(2), per_cpu: vec![counter(4), counter(5), counter(6)] },
        MapEntry { key: key(3), per_cpu: vec![counter(7), counter(8), counter(9)] },
    ];
    let map = BpfPerCpuMap::new(3, entries).unwrap();
    let mut visitor = CollectingVisitor::new(3);
    let n = map.for_each(&mut visitor);
    assert_eq!(n, 3);
    assert_eq!(visitor.rows.len(), 3);
    let keys: Vec<XdpIpAddress> = visitor.rows.iter().map(|v| v.0).collect();
    assert_eq!(keys, vec![key(1), key(2), key(3)]);
    for (_, row) in visitor.rows {
        assert_eq!(row.len(), 3);
    }
}

#[test]
fn aggregation_sums_each_field_across_the_slice() {
    let per_cpu = vec![counter(10), counter(20), counter(5)];
    let total = aggregate_counters(&per_cpu);
    assert_eq!(total.download_bytes, 35);
    assert_eq!(total.upload_bytes, 0);

    let mut a = HostCounter::default();
    a.upload_bytes = 7;
    a.download_packets = 1;
    a.upload_packets = 2;
    a.tc_handle = 3;
    a.last_seen = 100;
    let mut b = HostCounter::default();
    b.upload_bytes = 8;
    b.download_packets = 9;
    b.upload_packets = 10;
    b.tc_handle = 0;
    b.last_seen = 200;
    let total = aggregate_counters(&vec![a, b]);
    assert_eq!(total.upload_bytes, 15);
    assert_eq!(total.download_packets, 10);
    assert_eq!(total.upload_packets, 12);
    assert_eq!(total.tc_handle, 3);
    assert_eq!(total.last_seen, 300);
}

#[test]
fn aggregation_saturates_instead_of_wrapping() {
    let per_cpu = vec![counter(u64::MAX), counter(1)];
    let total = aggregate_counters(&per_cpu);
    assert_eq!(total.download_bytes, u64::MAX);
}

#[test]
fn harvester_merges_every_key_field_wise() {
    let entries = vec![
        MapEntry { key: key(9), per_cpu: vec![counter(10), counter(20), counter(5)] },
        MapEntry { key: key(8), per_cpu: vec![counter(1), counter(2), counter(3)] },
    ];
    let map = BpfPerCpuMap::new(3, entries).unwrap();
    let out = collect_host_counters(&map);
    assert_eq!(out.len(), 2);
    assert_eq!(out[0].0, key(9));
    assert_eq!(out[0].1.download_bytes, 35);
    assert_eq!(out[1].0, key(8));
    assert_eq!(out[1].1.download_bytes, 6);
}
