use vstd::prelude::*;

verus! {

/// One volume as read from the metrics provider.
#[derive(Clone)]
pub struct DiskReading {
    pub name: String,
    pub total_bytes: u64,
    pub available_bytes: u64,
}

/// One aggregated volume: space used, total space, and the usage ratio
/// in thousandths. A zero-capacity volume is defined to have ratio 0.
#[derive(Clone)]
pub struct DiskEntry {
    pub name: String,
    pub used_bytes: u64,
    pub total_bytes: u64,
    pub ratio_permille: u64,
}

/// Space in use: total minus available, and 0 if the provider reports
/// more available than total.
pub open spec fn used_bytes_spec(total: u64, available: u64) -> u64 {
    if available <= total {
        (total - available) as u64
    } else {
        0
    }
}

/// Usage ratio in thousandths, with the degenerate zero-capacity volume
/// mapped to 0 rather than an undefined quotient.
pub open spec fn ratio_permille_spec(total: u64, available: u64) -> int {
    if total == 0 {
        0
    } else {
        used_bytes_spec(total, available) * 1000 / (total as int)
    }
}

/// The aggregated entry one reading turns into.
pub open spec fn disk_entry_spec(d: DiskReading) -> DiskEntry {
    DiskEntry {
        name: d.name,
        used_bytes: used_bytes_spec(d.total_bytes, d.available_bytes),
        total_bytes: d.total_bytes,
        ratio_permille: ratio_permille_spec(d.total_bytes, d.available_bytes) as u64,
    }
}

pub fn ratio_permille(total: u64, available: u64) -> (r: u64)
    ensures
        r == ratio_permille_spec(total, available),
        r <= 1000,
{
    if total == 0 {
        0
    } else {
        let used: u64 = if available <= total {
            total - available
        } else {
            0
        };
        let wide: u128 = (used as u128) * 1000 / (total as u128);
        proof {
            vstd::arithmetic::mul::lemma_mul_inequality(used as int, total as int, 1000);
            vstd::arithmetic::div_mod::lemma_div_is_ordered(
                used as int * 1000,
                total as int * 1000,
                total as int,
            );
            vstd::arithmetic::div_mod::lemma_div_multiples_vanish(1000, total as int);
        }
        wide as u64
    }
}

/// One aggregation pass: recompute every volume's usage wholesale.
pub fn aggregate(readings: Vec<DiskReading>) -> (r: Vec<DiskEntry>)
    ensures
        r@.len() == readings@.len(),
        forall|i: int| 0 <= i < r@.len() ==> r@[i] == disk_entry_spec(readings@[i]),
{
    let mut out: Vec<DiskEntry> = Vec::new();
    let mut rest = readings;
    let ghost all = rest@;
    let n = rest.len();
    let mut idx: usize = 0;
    while rest.len() > 0
        invariant
            all.len() == n,
            idx == all.len() - rest@.len(),
            0 <= idx <= all.len(),
            rest@ =~= all.subrange(idx as int, all.len() as int),
            out@.len() == idx,
            forall|i: int| 0 <= i < idx ==> out@[i] == disk_entry_spec(all[i]),
        decreases rest@.len(),
    {
        let d = rest.remove(0);
        let ratio = ratio_permille(d.total_bytes, d.available_bytes);
        let used: u64 = if d.available_bytes <= d.total_bytes {
            d.total_bytes - d.available_bytes
        } else {
            0
        };
        out.push(
            DiskEntry { name: d.name, used_bytes: used, total_bytes: d.total_bytes, ratio_permille: ratio },
        );
        idx = idx + 1;
        proof {
            assert(rest@ =~= all.subrange(idx as int, all.len() as int));
        }
    }
    out
}

} // verus!
