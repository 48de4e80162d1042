use vstd::prelude::*;
use crate::disks::{disk_entry_spec, aggregate, DiskReading};
use crate::metrics::{memory_permyriad, permyriad_spec, total_throughput, total_sample_spec, NetSample};
use crate::ranker::{entry_of, is_ranking, rank, sorted_desc, ProcessSample, TOP_K};
use crate::ring::{push_model, RingHistory};
use crate::snapshot::SharedSnapshot;
use crate::HISTORY_LEN;

verus! {

/// How often the fast-changing counters (CPU, memory, network) are
/// sampled into the histories, and the disks rescanned.
pub const FAST_INTERVAL_MS: u64 = 1000;

/// How often the process ranking pass runs.
pub const SLOW_INTERVAL_MS: u64 = 5000;

/// One point-in-time read of the fast-changing counters, as plain values:
/// per-core CPU load in ten-thousandths, memory in bytes, and one network
/// sample per interface.
pub struct FastReadings {
    pub cpu_permyriad: Vec<u64>,
    pub mem_used_bytes: u64,
    pub mem_total_bytes: u64,
    pub net: Vec<NetSample>,
}

/// What a poll should trigger: which of the two cadence gates are open.
#[derive(Clone, Copy, Debug, PartialEq, Eq, Structural)]
pub struct PollPlan {
    pub fast: bool,
    pub slow: bool,
}

/// Append one fast sample to each per-core history, core by core.
fn push_cpu_samples(hists: &mut Vec<RingHistory<u64>>, values: &Vec<u64>)
    requires
        values@.len() == old(hists)@.len(),
        forall|i: int|
            0 <= i < old(hists)@.len() ==> {
                &&& (#[trigger] old(hists)@[i]).wf()
                &&& old(hists)@[i].spec_capacity() == HISTORY_LEN
                &&& old(hists)@[i].is_full()
            },
    ensures
        final(hists)@.len() == old(hists)@.len(),
        forall|i: int|
            0 <= i < final(hists)@.len() ==> {
                &&& (#[trigger] final(hists)@[i]).wf()
                &&& final(hists)@[i].spec_capacity() == HISTORY_LEN
                &&& final(hists)@[i].is_full()
                &&& final(hists)@[i]@ == push_model(
                    old(hists)@[i]@,
                    HISTORY_LEN as nat,
                    values@[i],
                )
            },
{
    let n = hists.len();
    let mut i: usize = 0;
    while i < n
        invariant
            i <= n,
            n == hists@.len(),
            n == old(hists)@.len(),
            n == values@.len(),
            forall|k: int|
                0 <= k < n ==> {
                    &&& (#[trigger] old(hists)@[k]).wf()
                    &&& old(hists)@[k].spec_capacity() == HISTORY_LEN
                    &&& old(hists)@[k].is_full()
                },
            forall|k: int|
                i <= k < n ==> #[trigger] hists@[k] == old(hists)@[k],
            forall|k: int|
                0 <= k < i ==> {
                    &&& (#[trigger] hists@[k]).wf()
                    &&& hists@[k].spec_capacity() == HISTORY_LEN
                    &&& hists@[k].is_full()
                    &&& hists@[k]@ == push_model(old(hists)@[k]@, HISTORY_LEN as nat, values@[k])
                },
        decreases n - i,
    {
        let v = values[i];
        hists[i].push(v);
        i = i + 1;
    }
}

/// The single entry point the presentation layer polls once per redraw:
/// it keeps the two cadence gates and owns the shared snapshot on the
/// consumer side. The caller reads the wall clock once per poll and
/// passes it in as milliseconds.
pub struct MonitorFacade {
    pub snapshot: SharedSnapshot,
    pub last_update: u64,
    pub update_interval_ms: u64,
    pub last_process_update: u64,
    pub process_update_interval_ms: u64,
}

impl MonitorFacade {
    pub open spec fn wf(&self) -> bool {
        self.snapshot.wf()
    }

    /// The fast gate is open once a full interval has passed since the
    /// last fast update.
    pub open spec fn fast_due_spec(&self, now: u64) -> bool {
        now >= self.last_update + self.update_interval_ms
    }

    /// The slow gate is open once a full interval has passed since the
    /// last ranking pass.
    pub open spec fn slow_due_spec(&self, now: u64) -> bool {
        now >= self.last_process_update + self.process_update_interval_ms
    }

    /// A facade over a freshly zeroed snapshot; both gates start closed,
    /// so the first update happens one interval after construction.
    pub fn new(now_ms: u64, cpu_count: usize) -> (r: Self)
        ensures
            r.wf(),
            r.last_update == now_ms,
            r.last_process_update == now_ms,
            r.update_interval_ms == FAST_INTERVAL_MS,
            r.process_update_interval_ms == SLOW_INTERVAL_MS,
            r.snapshot.cpu_histories@.len() == cpu_count,
            forall|i: int, j: int|
                0 <= i < cpu_count && 0 <= j < HISTORY_LEN ==> r.snapshot.cpu_histories@[i]@[j]
                    == 0u64,
            forall|j: int| 0 <= j < HISTORY_LEN ==> r.snapshot.memory_history@[j] == 0u64,
            forall|j: int|
                0 <= j < HISTORY_LEN ==> r.snapshot.network_history@[j] == (NetSample {
                    rx_bytes: 0,
                    tx_bytes: 0,
                }),
            r.snapshot.processes@.len() == 0,
            r.snapshot.disks@.len() == 0,
    {
        MonitorFacade {
            snapshot: SharedSnapshot::new(cpu_count),
            last_update: now_ms,
            update_interval_ms: FAST_INTERVAL_MS,
            last_process_update: now_ms,
            process_update_interval_ms: SLOW_INTERVAL_MS,
        }
    }

    pub fn fast_due(&self, now: u64) -> (r: bool)
        ensures
            r == self.fast_due_spec(now),
    {
        now >= self.last_update && now - self.last_update >= self.update_interval_ms
    }

    pub fn slow_due(&self, now: u64) -> (r: bool)
        ensures
            r == self.slow_due_spec(now),
    {
        now >= self.last_process_update && now - self.last_process_update
            >= self.process_update_interval_ms
    }

    /// The decision half of a poll: which periodic passes are due now.
    /// The caller gathers the readings only for the open gates and hands
    /// them to `record_fast` and `record_processes`, so the expensive
    /// scans run at their own cadence.
    pub fn poll_plan(&self, now: u64) -> (r: PollPlan)
        ensures
            r.fast == self.fast_due_spec(now),
            r.slow == self.slow_due_spec(now),
    {
        PollPlan { fast: self.fast_due(now), slow: self.slow_due(now) }
    }

    /// The fast-cadence pass: if due, append one sample to every history
    /// from the given readings, replace the disk list wholesale from the
    /// given rescan, and stamp the time; otherwise change nothing. The
    /// process ranking is never touched here.
    pub fn record_fast(&mut self, now: u64, readings: &FastReadings, disk_readings: Vec<DiskReading>)
        requires
            old(self).wf(),
            readings.cpu_permyriad@.len() == old(self).snapshot.cpu_histories@.len(),
        ensures
            final(self).wf(),
            !old(self).fast_due_spec(now) ==> *final(self) == *old(self),
            old(self).fast_due_spec(now) ==> {
                &&& final(self).last_update == now
                &&& final(self).last_process_update == old(self).last_process_update
                &&& final(self).update_interval_ms == old(self).update_interval_ms
                &&& final(self).process_update_interval_ms == old(self).process_update_interval_ms
                &&& final(self).snapshot.processes == old(self).snapshot.processes
                &&& final(self).snapshot.cpu_histories@.len() == old(
                    self,
                ).snapshot.cpu_histories@.len()
                &&& forall|i: int|
                    0 <= i < final(self).snapshot.cpu_histories@.len()
                        ==> #[trigger] final(self).snapshot.cpu_histories@[i]@ == push_model(
                        old(self).snapshot.cpu_histories@[i]@,
                        HISTORY_LEN as nat,
                        readings.cpu_permyriad@[i],
                    )
                &&& final(self).snapshot.memory_history@ == push_model(
                    old(self).snapshot.memory_history@,
                    HISTORY_LEN as nat,
                    permyriad_spec(readings.mem_used_bytes, readings.mem_total_bytes) as u64,
                )
                &&& final(self).snapshot.network_history@ == push_model(
                    old(self).snapshot.network_history@,
                    HISTORY_LEN as nat,
                    total_sample_spec(readings.net@),
                )
                &&& final(self).snapshot.disks@.len() == disk_readings@.len()
                &&& forall|i: int|
                    0 <= i < disk_readings@.len() ==> #[trigger] final(self).snapshot.disks@[i]
                        == disk_entry_spec(disk_readings@[i])
            },
    {
        if !self.fast_due(now) {
            return ;
        }
        push_cpu_samples(&mut self.snapshot.cpu_histories, &readings.cpu_permyriad);
        let mem = memory_permyriad(readings.mem_used_bytes, readings.mem_total_bytes);
        self.snapshot.memory_history.push(mem);
        let net = total_throughput(&readings.net);
        self.snapshot.network_history.push(net);
        self.snapshot.disks = aggregate(disk_readings);
        self.last_update = now;
    }

    /// The slow-cadence pass: if due, replace the top-`TOP_K` ranking
    /// wholesale from the given process list and stamp the time;
    /// otherwise change nothing. Histories and disks are never touched
    /// here.
    pub fn record_processes(&mut self, now: u64, samples: Vec<ProcessSample>)
        requires
            old(self).wf(),
        ensures
            final(self).wf(),
            !old(self).slow_due_spec(now) ==> *final(self) == *old(self),
            old(self).slow_due_spec(now) ==> {
                &&& final(self).last_process_update == now
                &&& final(self).last_update == old(self).last_update
                &&& final(self).update_interval_ms == old(self).update_interval_ms
                &&& final(self).process_update_interval_ms == old(self).process_update_interval_ms
                &&& final(self).snapshot.cpu_histories == old(self).snapshot.cpu_histories
                &&& final(self).snapshot.memory_history == old(self).snapshot.memory_history
                &&& final(self).snapshot.network_history == old(self).snapshot.network_history
                &&& final(self).snapshot.disks == old(self).snapshot.disks
                &&& final(self).snapshot.processes@.len() == vstd::math::min(
                    samples@.len() as int,
                    TOP_K as int,
                )
                &&& sorted_desc(final(self).snapshot.processes@)
                &&& exists|s: Seq<crate::ranker::ProcessEntry>|
                    is_ranking(samples@.map_values(|p: ProcessSample| entry_of(p)), s)
                        && final(self).snapshot.processes@ == s.subrange(
                        0,
                        vstd::math::min(s.len() as int, TOP_K as int),
                    )
            },
    {
        if !self.slow_due(now) {
            return ;
        }
        self.snapshot.processes = rank(samples);
        self.last_process_update = now;
    }

    pub fn cpu_core_count(&self) -> (n: usize)
        ensures
            n == self.snapshot.cpu_histories@.len(),
    {
        self.snapshot.cpu_histories.len()
    }

    pub fn cpu_history(&self, core: usize) -> (r: &RingHistory<u64>)
        requires
            core < self.snapshot.cpu_histories@.len(),
        ensures
            *r == self.snapshot.cpu_histories@[core as int],
    {
        &self.snapshot.cpu_histories[core]
    }

    pub fn memory_history(&self) -> (r: &RingHistory<u64>)
        ensures
            *r == self.snapshot.memory_history,
    {
        &self.snapshot.memory_history
    }

    pub fn network_history(&self) -> (r: &RingHistory<NetSample>)
        ensures
            *r == self.snapshot.network_history,
    {
        &self.snapshot.network_history
    }

    pub fn processes(&self) -> (r: &Vec<crate::ranker::ProcessEntry>)
        ensures
            r@ == self.snapshot.processes@,
    {
        &self.snapshot.processes
    }

    pub fn disks(&self) -> (r: &Vec<crate::disks::DiskEntry>)
        ensures
            r@ == self.snapshot.disks@,
    {
        &self.snapshot.disks
    }
}

/// Cadence gating law: after a pass stamps time `t`, polling at any
/// `now` with `now < t + interval` is not due, and the recording passes
/// leave the facade unchanged whenever they are not due.
pub proof fn lemma_gate_closed_within_interval(m: MonitorFacade, now: u64)
    ensures
        now < m.last_update + m.update_interval_ms ==> !m.fast_due_spec(now),
        now < m.last_process_update + m.process_update_interval_ms ==> !m.slow_due_spec(now),
{
}

} // verus!
