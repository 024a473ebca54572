use lqos::bus::{BusResponse, IpStats};
use lqos::tc_handle::TcHandle;
use lqos::tracker::{
    circuit_plan, count_flagged, extract_rtt_histogram, extract_top_downloaders,
    extract_worst_rtt, fold_throughput, host_counts_pair, ShapedDevice, ThroughputPerSecond,
};

fn stats(ip: &str, circuit: &str) -> IpStats {
    IpStats {
        ip_address: String::from(ip),
        bits_per_second: (1000, 2000),
        packets_per_second: (10, 20),
        tc_handle: TcHandle { major: 1, minor: 1 },
        circuit_id: String::from(circuit),
    }
}

#[test]
fn throughput_defaults_to_zero_without_a_response() {
    let t = fold_throughput(&Vec::new());
    assert_eq!(t, ThroughputPerSecond::default());
    let t = fold_throughput(&vec![BusResponse::Ack]);
    assert_eq!(t, ThroughputPerSecond::default());
}

#[test]
fn the_last_throughput_response_wins() {
    let responses = vec![
        BusResponse::CurrentThroughput {
            bits_per_second: (1, 2),
            packets_per_second: (3, 4),
            shaped_bits_per_second: (5, 6),
        },
        BusResponse::Ack,
        BusResponse::CurrentThroughput {
            bits_per_second: (7, 8),
            packets_per_second: (9, 10),
            shaped_bits_per_second: (11, 12),
        },
    ];
    let t = fold_throughput(&responses);
    assert_eq!(t.bits_per_second, (7, 8));
    assert_eq!(t.packets_per_second, (9, 10));
    assert_eq!(t.shaped_bits_per_second, (11, 12));
}

#[test]
fn the_first_matching_payload_is_taken() {
    let responses = vec![
        BusResponse::Ack,
        BusResponse::TopDownloaders(vec![stats("100.64.1.2", "c1")]),
        BusResponse::TopDownloaders(vec![stats("100.64.1.9", "c9")]),
        BusResponse::WorstRtt(vec![stats("100.64.1.3", "c2")]),
        BusResponse::RttHistogram(vec![5, 6, 7]),
    ];
    let top = extract_top_downloaders(&responses).unwrap();
    assert_eq!(top.len(), 1);
    assert_eq!(top[0].ip_address.as_str(), "100.64.1.2");
    let worst = extract_worst_rtt(&responses).unwrap();
    assert_eq!(worst[0].ip_address.as_str(), "100.64.1.3");
    let histogram = extract_rtt_histogram(&responses).unwrap();
    assert_eq!(histogram, &vec![5, 6, 7]);
}

#[test]
fn a_reply_without_the_payload_yields_none() {
    let responses = vec![BusResponse::Ack];
    assert!(extract_top_downloaders(&responses).is_none());
    assert!(extract_worst_rtt(&responses).is_none());
    assert!(extract_rtt_histogram(&responses).is_none());
}

#[test]
fn host_counts_count_the_flagged_hosts() {
    assert_eq!(count_flagged(&Vec::new()), 0);
    assert_eq!(count_flagged(&vec![true, false, true, true]), 3);
    assert_eq!(host_counts_pair(12, 3), (12, 3));
}

fn devices() -> Vec<ShapedDevice> {
    vec![
        ShapedDevice {
            circuit_id: String::from("c-1"),
            circuit_name: String::from("First Street"),
            download_max_mbps: 100,
            download_min_mbps: 25,
        },
        ShapedDevice {
            circuit_id: String::from("c-2"),
            circuit_name: String::from("Second Street"),
            download_max_mbps: 50,
            download_min_mbps: 10,
        },
    ]
}

#[test]
fn the_plan_comes_from_the_first_matching_circuit() {
    assert_eq!(circuit_plan(&devices(), &String::from("c-2")), (50, 10));
    assert_eq!(circuit_plan(&devices(), &String::from("c-1")), (100, 25));
}

#[test]
fn an_empty_or_unknown_circuit_has_no_plan() {
    assert_eq!(circuit_plan(&devices(), &String::new()), (0, 0));
    assert_eq!(circuit_plan(&devices(), &String::from("c-404")), (0, 0));
}
