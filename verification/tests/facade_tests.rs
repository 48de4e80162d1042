use sysmon_core::disks::DiskReading;
use sysmon_core::facade::{FastReadings, MonitorFacade};
use sysmon_core::metrics::NetSample;
use sysmon_core::ranker::ProcessSample;
use sysmon_core::ring::RingHistory;
use sysmon_core::HISTORY_LEN;

fn readings(cpu: u64, used: u64, total: u64, rx: u64, tx: u64) -> FastReadings {
    FastReadings {
        cpu_permyriad: vec![cpu],
        mem_used_bytes: used,
        mem_total_bytes: total,
        net: vec![NetSample { rx_bytes: rx, tx_bytes: tx }],
    }
}

fn values_of(h: &RingHistory<u64>) -> Vec<u64> {
    let mut out = Vec::new();
    for i in 0..h.len() {
        out.push(h.get(i));
    }
    out
}

#[test]
fn two_fast_ticks_advance_every_history_together() {
    let mut m = MonitorFacade::new(0, 1);
    m.record_fast(1000, &readings(4200, 42, 100, 10, 1), Vec::new());
    m.record_fast(2000, &readings(5800, 58, 100, 20, 2), Vec::new());

    let cpu = m.cpu_history(0);
    assert_eq!(cpu.len(), HISTORY_LEN);
    assert_eq!(cpu.get(HISTORY_LEN - 2), 4200);
    assert_eq!(cpu.get(HISTORY_LEN - 1), 5800);
    // read back as percentages, the last two samples are 42.0 and 58.0
    assert_eq!(cpu.get(HISTORY_LEN - 2) as f64 / 100.0, 42.0);
    assert_eq!(cpu.get(HISTORY_LEN - 1) as f64 / 100.0, 58.0);

    // memory and network advanced by exactly one sample per tick too
    let mem = m.memory_history();
    assert_eq!(mem.len(), HISTORY_LEN);
    assert_eq!(mem.get(HISTORY_LEN - 3), 0);
    assert_eq!(mem.get(HISTORY_LEN - 2), 4200);
    assert_eq!(mem.get(HISTORY_LEN - 1), 5800);
    let net = m.network_history();
    assert_eq!(net.len(), HISTORY_LEN);
    assert_eq!(net.get(HISTORY_LEN - 3), NetSample { rx_bytes: 0, tx_bytes: 0 });
    assert_eq!(net.get(HISTORY_LEN - 2), NetSample { rx_bytes: 10, tx_bytes: 1 });
    assert_eq!(net.get(HISTORY_LEN - 1), NetSample { rx_bytes: 20, tx_bytes: 2 });
}

#[test]
fn a_second_poll_within_the_interval_samples_nothing() {
    let mut m = MonitorFacade::new(0, 1);
    m.record_fast(1000, &readings(4200, 42, 100, 10, 1), Vec::new());
    let cpu_before = values_of(m.cpu_history(0));
    let mem_before = values_of(m.memory_history());

    let plan = m.poll_plan(1999);
    assert!(!plan.fast);
    m.record_fast(1999, &readings(9999, 99, 100, 99, 99), Vec::new());

    assert_eq!(values_of(m.cpu_history(0)), cpu_before);
    assert_eq!(values_of(m.memory_history()), mem_before);
    // from 2000 on the fast pass is due once more
    assert!(m.poll_plan(2000).fast);
}

#[test]
fn process_ranking_runs_on_its_own_slower_cadence() {
    let mut m = MonitorFacade::new(0, 1);
    let plan = m.poll_plan(1000);
    assert!(plan.fast);
    assert!(!plan.slow);

    let hog = ProcessSample { pid: 2, name: "hog".to_string(), read_bytes: 99, written_bytes: 0 };
    let idle = ProcessSample { pid: 1, name: "idle".to_string(), read_bytes: 10, written_bytes: 0 };

    m.record_processes(4999, vec![hog.clone(), idle.clone()]);
    assert_eq!(m.processes().len(), 0);

    m.record_processes(5000, vec![hog, idle]);
    let ps = m.processes();
    assert_eq!(ps.len(), 2);
    assert_eq!(ps[0].pid, 2);
    assert_eq!(ps[0].io_bytes, 99);
    assert_eq!(ps[1].pid, 1);
    assert_eq!(ps[1].io_bytes, 10);
}

#[test]
fn fast_tick_rescans_disks_inline() {
    let mut m = MonitorFacade::new(0, 1);
    let disks = vec![DiskReading {
        name: "root".to_string(),
        total_bytes: 100,
        available_bytes: 30,
    }];
    m.record_fast(1000, &readings(0, 0, 0, 0, 0), disks);
    assert_eq!(m.disks().len(), 1);
    assert_eq!(m.disks()[0].name, "root");
    assert_eq!(m.disks()[0].used_bytes, 70);
    assert_eq!(m.disks()[0].ratio_permille, 700);
}
