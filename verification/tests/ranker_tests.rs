use sysmon_core::ranker::{io_volume, rank, ProcessSample};

fn sample(pid: u64, read_bytes: u64, written_bytes: u64) -> ProcessSample {
    ProcessSample { pid, name: format!("proc{}", pid), read_bytes, written_bytes }
}

#[test]
fn keeps_the_top_five_by_descending_io() {
    let volumes: [u64; 7] = [10, 50, 5, 100, 20, 1, 0];
    let mut samples = Vec::new();
    for (i, v) in volumes.iter().enumerate() {
        samples.push(sample(i as u64, *v, 0));
    }
    let ranked = rank(samples);
    let ios: Vec<u64> = ranked.iter().map(|e| e.io_bytes).collect();
    assert_eq!(ios, vec![100, 50, 20, 10, 5]);
}

#[test]
fn short_lists_come_back_whole_and_sorted() {
    let samples = vec![sample(1, 3, 4), sample(2, 100, 0), sample(3, 0, 9)];
    let ranked = rank(samples);
    assert_eq!(ranked.len(), 3);
    let ios: Vec<u64> = ranked.iter().map(|e| e.io_bytes).collect();
    assert_eq!(ios, vec![100, 9, 7]);
    assert_eq!(ranked[0].pid, 2);
    assert_eq!(ranked[0].name, "proc2");
}

#[test]
fn empty_process_list_ranks_to_nothing() {
    let ranked = rank(Vec::new());
    assert_eq!(ranked.len(), 0);
}

#[test]
fn io_volume_adds_reads_and_writes() {
    assert_eq!(io_volume(3, 4), 7);
    assert_eq!(io_volume(0, 0), 0);
}

#[test]
fn io_volume_saturates_instead_of_wrapping() {
    assert_eq!(io_volume(u64::MAX, 1), u64::MAX);
    assert_eq!(io_volume(u64::MAX, u64::MAX), u64::MAX);
}

#[test]
fn equal_volumes_all_survive_in_some_order() {
    let samples = vec![sample(1, 5, 0), sample(2, 5, 0), sample(3, 5, 0)];
    let ranked = rank(samples);
    assert_eq!(ranked.len(), 3);
    let mut pids: Vec<u64> = ranked.iter().map(|e| e.pid).collect();
    pids.sort();
    assert_eq!(pids, vec![1, 2, 3]);
    for e in &ranked {
        assert_eq!(e.io_bytes, 5);
    }
}
