use vstd::prelude::*;

verus! {

/// How many processes the ranking pass retains.
pub const TOP_K: usize = 5;

/// One live process as read from the metrics provider: identity, display
/// name, and the bytes it has read and written since it started.
#[derive(Clone)]
pub struct ProcessSample {
    pub pid: u64,
    pub name: String,
    pub read_bytes: u64,
    pub written_bytes: u64,
}

/// One ranked process: identity, display name, and derived I/O volume.
#[derive(Clone)]
pub struct ProcessEntry {
    pub pid: u64,
    pub name: String,
    pub io_bytes: u64,
}

/// Derived I/O volume: bytes read plus bytes written, saturating at the
/// integer limit.
pub open spec fn io_volume_spec(read_bytes: u64, written_bytes: u64) -> u64 {
    if read_bytes + written_bytes <= u64::MAX {
        (read_bytes + written_bytes) as u64
    } else {
        u64::MAX
    }
}

/// The ranked entry a sample turns into.
pub open spec fn entry_of(s: ProcessSample) -> ProcessEntry {
    ProcessEntry { pid: s.pid, name: s.name, io_bytes: io_volume_spec(s.read_bytes, s.written_bytes) }
}

/// Descending order by I/O volume, oldest-style ties free.
pub open spec fn sorted_desc(s: Seq<ProcessEntry>) -> bool {
    forall|i: int, j: int| 0 <= i <= j < s.len() ==> s[i].io_bytes >= s[j].io_bytes
}

/// `r` lists exactly the entries of `all`, in descending I/O order.
pub open spec fn is_ranking(all: Seq<ProcessEntry>, r: Seq<ProcessEntry>) -> bool {
    r.to_multiset() == all.to_multiset() && sorted_desc(r)
}

pub fn io_volume(read_bytes: u64, written_bytes: u64) -> (r: u64)
    ensures
        r == io_volume_spec(read_bytes, written_bytes),
{
    match read_bytes.checked_add(written_bytes) {
        Some(v) => v,
        None => u64::MAX,
    }
}

/// The ranking keeps the largest volumes: in a descending-sorted list,
/// every entry past the first `k` has at most the volume of the `k`-th,
/// so truncating such a list to `k` entries discards no larger volume.
pub proof fn lemma_top_k_dominates(s: Seq<ProcessEntry>, k: int)
    requires
        sorted_desc(s),
        0 < k <= s.len(),
    ensures
        forall|i: int| k <= i < s.len() ==> (#[trigger] s[i]).io_bytes <= s[k - 1].io_bytes,
{
}

/// Inserting an element anywhere in a sequence adds exactly it to the
/// sequence's multiset.
proof fn lemma_to_multiset_insert<A>(s: Seq<A>, j: int, x: A)
    requires
        0 <= j <= s.len(),
    ensures
        s.insert(j, x).to_multiset() =~= s.to_multiset().insert(x),
{
    broadcast use vstd::seq_lib::group_to_multiset_ensures;
    broadcast use vstd::multiset::group_multiset_axioms;
    broadcast use vstd::seq_lib::lemma_multiset_commutative;

    assert(s.insert(j, x) =~= s.subrange(0, j).push(x) + s.subrange(j, s.len() as int));
    assert(s =~= s.subrange(0, j) + s.subrange(j, s.len() as int));
    assert(s.subrange(0, j).push(x).to_multiset() =~= s.subrange(0, j).to_multiset().insert(x));
}

/// Sort in place by descending I/O volume; a permutation of the input.
pub fn sort_desc(v: &mut Vec<ProcessEntry>)
    ensures
        final(v)@.len() == old(v)@.len(),
        final(v)@.to_multiset() == old(v)@.to_multiset(),
        sorted_desc(final(v)@),
{
    broadcast use vstd::seq_lib::group_to_multiset_ensures;

    let n = v.len();
    if n <= 1 {
        return ;
    }
    let mut i: usize = 1;
    while i < n
        invariant
            1 <= i <= n,
            n == v@.len(),
            v@.to_multiset() == old(v)@.to_multiset(),
            sorted_desc(v@.subrange(0, i as int)),
        decreases n - i,
    {
        let ghost before = v@;
        let x = v.remove(i);
        let ghost removed = v@;
        proof {
            assert(removed.subrange(0, i as int) =~= before.subrange(0, i as int));
        }
        let mut j: usize = 0;
        while j < i && v[j].io_bytes >= x.io_bytes
            invariant
                j <= i,
                i <= v@.len(),
                v@ == removed,
                forall|k: int| 0 <= k < j ==> v@[k].io_bytes >= x.io_bytes,
            decreases i - j,
        {
            j = j + 1;
        }
        v.insert(j, x);
        proof {
            broadcast use vstd::seq_lib::group_to_multiset_ensures;
            broadcast use vstd::multiset::group_multiset_axioms;
            broadcast use vstd::multiset::group_multiset_properties;

            lemma_to_multiset_insert(removed, j as int, x);
            assert(before.remove(i as int).to_multiset() =~= before.to_multiset().remove(
                before[i as int],
            ));
            assert(before.contains(before[i as int]));
            assert(before.to_multiset().count(before[i as int]) > 0);
            assert(v@.to_multiset() =~= before.to_multiset());
            assert(sorted_desc(v@.subrange(0, i as int + 1))) by {
                removed.insert_ensures(j as int, x);
                assert(forall|k: int| j < k < i + 1 ==> #[trigger] v@[k].io_bytes <= x.io_bytes);
            }
        }
        i = i + 1;
    }
    proof {
        assert(v@.subrange(0, n as int) =~= v@);
    }
}

/// Turn the provider's raw process list into ranked entries: derive each
/// I/O volume, order by it descending, and keep the first `TOP_K`. Ties
/// may come out in any order, as the provider's enumeration order is not
/// specified.
pub fn rank(samples: Vec<ProcessSample>) -> (r: Vec<ProcessEntry>)
    ensures
        r@.len() == vstd::math::min(samples@.len() as int, TOP_K as int),
        sorted_desc(r@),
        exists|s: Seq<ProcessEntry>|
            is_ranking(samples@.map_values(|p: ProcessSample| entry_of(p)), s) && r@
                == s.subrange(0, vstd::math::min(s.len() as int, TOP_K as int)),
{
    broadcast use vstd::seq_lib::group_to_multiset_ensures;

    let mut entries: Vec<ProcessEntry> = Vec::new();
    let mut idx: usize = 0;
    let n = samples.len();
    let mut rest = samples;
    let ghost all = rest@;
    // Drain front to back so each sample's name can move into its entry.
    while rest.len() > 0
        invariant
            all.len() == n,
            idx == all.len() - rest@.len(),
            0 <= idx <= all.len(),
            rest@ =~= all.subrange(idx as int, all.len() as int),
            entries@.len() == idx,
            forall|k: int| 0 <= k < idx ==> entries@[k] == entry_of(all[k]),
        decreases rest@.len(),
    {
        let s = rest.remove(0);
        let io = io_volume(s.read_bytes, s.written_bytes);
        entries.push(ProcessEntry { pid: s.pid, name: s.name, io_bytes: io });
        idx = idx + 1;
        proof {
            assert(rest@ =~= all.subrange(idx as int, all.len() as int));
        }
    }
    proof {
        assert(entries@ =~= all.map_values(|p: ProcessSample| entry_of(p)));
    }
    sort_desc(&mut entries);
    let ghost sorted = entries@;
    if entries.len() > TOP_K {
        entries.truncate(TOP_K);
    }
    proof {
        assert(entries@ =~= sorted.subrange(
            0,
            vstd::math::min(sorted.len() as int, TOP_K as int),
        ));
    }
    entries
}

} // verus!
