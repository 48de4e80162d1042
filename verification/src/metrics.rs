use vstd::prelude::*;

verus! {

/// Network throughput observed at one tick, in bytes, summed over all
/// interfaces.
#[derive(Clone, Copy, Debug, PartialEq, Eq, Structural)]
pub struct NetSample {
    pub rx_bytes: u64,
    pub tx_bytes: u64,
}

/// A share of a whole in ten-thousandths, with the part clamped to the
/// whole and a zero whole mapped to 0 rather than an undefined quotient.
pub open spec fn permyriad_spec(part: u64, whole: u64) -> int {
    if whole == 0 {
        0
    } else {
        vstd::math::min(part as int, whole as int) * 10000 / (whole as int)
    }
}

/// Memory pressure as a share of total memory, in ten-thousandths.
pub fn memory_permyriad(used: u64, total: u64) -> (r: u64)
    ensures
        r == permyriad_spec(used, total),
        r <= 10000,
{
    if total == 0 {
        0
    } else {
        let part: u64 = if used <= total {
            used
        } else {
            total
        };
        let wide: u128 = (part as u128) * 10000 / (total as u128);
        proof {
            vstd::arithmetic::mul::lemma_mul_inequality(part as int, total as int, 10000);
            vstd::arithmetic::div_mod::lemma_div_is_ordered(
                part as int * 10000,
                total as int * 10000,
                total as int,
            );
            vstd::arithmetic::div_mod::lemma_div_multiples_vanish(10000, total as int);
        }
        wide as u64
    }
}

/// Received bytes summed over a list of per-interface samples.
pub open spec fn sum_rx(s: Seq<NetSample>) -> int
    decreases s.len(),
{
    if s.len() == 0 {
        0
    } else {
        sum_rx(s.drop_last()) + s.last().rx_bytes
    }
}

/// Transmitted bytes summed over a list of per-interface samples.
pub open spec fn sum_tx(s: Seq<NetSample>) -> int
    decreases s.len(),
{
    if s.len() == 0 {
        0
    } else {
        sum_tx(s.drop_last()) + s.last().tx_bytes
    }
}

/// The combined sample a list of per-interface samples adds up to, each
/// direction saturating at the integer limit.
pub open spec fn total_sample_spec(s: Seq<NetSample>) -> NetSample {
    NetSample {
        rx_bytes: vstd::math::min(sum_rx(s), u64::MAX as int) as u64,
        tx_bytes: vstd::math::min(sum_tx(s), u64::MAX as int) as u64,
    }
}

/// Total throughput over all interfaces at one tick, each direction
/// saturating at the integer limit.
pub fn total_throughput(per_iface: &Vec<NetSample>) -> (r: NetSample)
    ensures
        r == total_sample_spec(per_iface@),
        r.rx_bytes == vstd::math::min(sum_rx(per_iface@), u64::MAX as int),
        r.tx_bytes == vstd::math::min(sum_tx(per_iface@), u64::MAX as int),
{
    let mut rx: u64 = 0;
    let mut tx: u64 = 0;
    let mut i: usize = 0;
    let n = per_iface.len();
    while i < n
        invariant
            i <= n,
            n == per_iface@.len(),
            rx == vstd::math::min(sum_rx(per_iface@.subrange(0, i as int)), u64::MAX as int),
            tx == vstd::math::min(sum_tx(per_iface@.subrange(0, i as int)), u64::MAX as int),
        decreases n - i,
    {
        let s = per_iface[i];
        rx = rx.saturating_add(s.rx_bytes);
        tx = tx.saturating_add(s.tx_bytes);
        i = i + 1;
        proof {
            let pre = per_iface@.subrange(0, i - 1);
            let cur = per_iface@.subrange(0, i as int);
            assert(cur.drop_last() =~= pre);
            assert(cur.last() == per_iface@[i - 1]);
        }
    }
    proof {
        assert(per_iface@.subrange(0, n as int) =~= per_iface@);
    }
    NetSample { rx_bytes: rx, tx_bytes: tx }
}

/// Substitute the fixed placeholder for a field the provider could not
/// report.
pub fn field_or_unknown(v: Option<String>) -> (r: String)
    ensures
        v is Some ==> r@ == v->Some_0@,
        v is None ==> r@ == "Unknown"@,
{
    match v {
        Some(s) => s,
        None => "Unknown".to_owned(),
    }
}

/// Uptime shown in whole minutes.
pub fn uptime_minutes(uptime_secs: u64) -> (r: u64)
    ensures
        r == uptime_secs as int / 60,
{
    uptime_secs / 60
}

} // verus!
