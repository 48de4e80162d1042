use sysmon_core::metrics::{
    field_or_unknown, memory_permyriad, total_throughput, uptime_minutes, NetSample,
};

#[test]
fn memory_share_in_ten_thousandths() {
    assert_eq!(memory_permyriad(50, 100), 5000);
    assert_eq!(memory_permyriad(42, 100), 4200);
    assert_eq!(memory_permyriad(0, 100), 0);
    assert_eq!(memory_permyriad(100, 100), 10000);
}

#[test]
fn degenerate_memory_totals_read_as_zero() {
    assert_eq!(memory_permyriad(0, 0), 0);
    assert_eq!(memory_permyriad(7, 0), 0);
    assert_eq!(memory_permyriad(200, 100), 10000);
}

#[test]
fn throughput_sums_over_interfaces() {
    let per_iface = vec![
        NetSample { rx_bytes: 100, tx_bytes: 5 },
        NetSample { rx_bytes: 200, tx_bytes: 10 },
        NetSample { rx_bytes: 0, tx_bytes: 1 },
    ];
    let total = total_throughput(&per_iface);
    assert_eq!(total, NetSample { rx_bytes: 300, tx_bytes: 16 });
}

#[test]
fn throughput_saturates_instead_of_wrapping() {
    let per_iface = vec![
        NetSample { rx_bytes: u64::MAX, tx_bytes: 0 },
        NetSample { rx_bytes: u64::MAX, tx_bytes: 3 },
    ];
    let total = total_throughput(&per_iface);
    assert_eq!(total.rx_bytes, u64::MAX);
    assert_eq!(total.tx_bytes, 3);
}

#[test]
fn empty_interface_list_totals_zero() {
    let total = total_throughput(&Vec::new());
    assert_eq!(total, NetSample { rx_bytes: 0, tx_bytes: 0 });
}

#[test]
fn missing_provider_fields_become_the_placeholder() {
    assert_eq!(field_or_unknown(Some("Linux".to_string())), "Linux");
    assert_eq!(field_or_unknown(None), "Unknown");
}

#[test]
fn uptime_shown_in_whole_minutes() {
    assert_eq!(uptime_minutes(0), 0);
    assert_eq!(uptime_minutes(59), 0);
    assert_eq!(uptime_minutes(125), 2);
}
