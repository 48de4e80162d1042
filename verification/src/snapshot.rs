use vstd::prelude::*;
use crate::disks::DiskEntry;
use crate::metrics::NetSample;
use crate::ranker::ProcessEntry;
use crate::ring::RingHistory;
use crate::HISTORY_LEN;

verus! {

/// The aggregate mutable state shared between the background sampler and
/// the polling consumer: current rolling histories, the cached process
/// ranking and the cached disk list. Created once at startup and then
/// owned in rotation by exactly one of the two actors at a time; the
/// surrounding application provides the mutual-exclusion guard, which
/// Rust's ownership discipline makes a prerequisite of calling in here.
pub struct SharedSnapshot {
    pub cpu_histories: Vec<RingHistory<u64>>,
    pub memory_history: RingHistory<u64>,
    pub network_history: RingHistory<NetSample>,
    pub processes: Vec<ProcessEntry>,
    pub disks: Vec<DiskEntry>,
}

impl SharedSnapshot {
    /// Every history buffer is a full window of `HISTORY_LEN` samples, so
    /// consumers never see a partially filled plot.
    pub open spec fn wf(&self) -> bool {
        &&& forall|i: int|
            0 <= i < self.cpu_histories@.len() ==> {
                &&& (#[trigger] self.cpu_histories@[i]).wf()
                &&& self.cpu_histories@[i].spec_capacity() == HISTORY_LEN
                &&& self.cpu_histories@[i].is_full()
            }
        &&& self.memory_history.wf()
        &&& self.memory_history.spec_capacity() == HISTORY_LEN
        &&& self.memory_history.is_full()
        &&& self.network_history.wf()
        &&& self.network_history.spec_capacity() == HISTORY_LEN
        &&& self.network_history.is_full()
    }

    /// The zeroed state at startup: one full all-zero history per CPU
    /// core, all-zero memory and network histories, and no ranked
    /// processes or disks yet.
    pub fn new(cpu_count: usize) -> (r: Self)
        ensures
            r.wf(),
            r.cpu_histories@.len() == cpu_count,
            forall|i: int, j: int|
                0 <= i < cpu_count && 0 <= j < HISTORY_LEN ==> r.cpu_histories@[i]@[j] == 0u64,
            forall|j: int| 0 <= j < HISTORY_LEN ==> r.memory_history@[j] == 0u64,
            forall|j: int|
                0 <= j < HISTORY_LEN ==> r.network_history@[j] == (NetSample {
                    rx_bytes: 0,
                    tx_bytes: 0,
                }),
            r.processes@.len() == 0,
            r.disks@.len() == 0,
    {
        let mut cpu_histories: Vec<RingHistory<u64>> = Vec::new();
        let mut i: usize = 0;
        while i < cpu_count
            invariant
                i <= cpu_count,
                cpu_histories@.len() == i,
                forall|k: int|
                    0 <= k < i ==> {
                        &&& (#[trigger] cpu_histories@[k]).wf()
                        &&& cpu_histories@[k].spec_capacity() == HISTORY_LEN
                        &&& cpu_histories@[k].is_full()
                        &&& forall|j: int| 0 <= j < HISTORY_LEN ==> cpu_histories@[k]@[j] == 0u64
                    },
            decreases cpu_count - i,
        {
            cpu_histories.push(RingHistory::new(HISTORY_LEN, 0u64));
            i = i + 1;
        }
        SharedSnapshot {
            cpu_histories,
            memory_history: RingHistory::new(HISTORY_LEN, 0u64),
            network_history: RingHistory::new(HISTORY_LEN, NetSample { rx_bytes: 0, tx_bytes: 0 }),
            processes: Vec::new(),
            disks: Vec::new(),
        }
    }
}

} // verus!
