use vstd::prelude::*;

verus! {

/// Handle under which the application keeps a resolved icon image.
pub type IconHandle = u64;

/// One cache entry: an executable path and what resolving it produced,
/// where `None` records a permanent negative result.
struct IconSlot {
    path: String,
    icon: Option<IconHandle>,
}

/// Remembering lookup from executable path to resolved icon handle. Once a
/// path has an entry — including a negative one — it is never re-resolved.
pub struct IconCache {
    entries: Vec<IconSlot>,
}

spec fn map_of(entries: Seq<IconSlot>) -> Map<Seq<char>, Option<IconHandle>>
    decreases entries.len(),
{
    if entries.len() == 0 {
        Map::empty()
    } else {
        map_of(entries.drop_last()).insert(entries.last().path@, entries.last().icon)
    }
}

/// What resolving does to the cache contents: nothing when the path is
/// already present, otherwise it records the freshly resolved value.
pub open spec fn resolve_map_spec(
    m: Map<Seq<char>, Option<IconHandle>>,
    path: Seq<char>,
    resolved: Option<IconHandle>,
) -> Map<Seq<char>, Option<IconHandle>> {
    if m.contains_key(path) {
        m
    } else {
        m.insert(path, resolved)
    }
}

/// What resolving returns: the cached value when the path is already
/// present, otherwise the freshly resolved one.
pub open spec fn resolve_result_spec(
    m: Map<Seq<char>, Option<IconHandle>>,
    path: Seq<char>,
    resolved: Option<IconHandle>,
) -> Option<IconHandle> {
    if m.contains_key(path) {
        m[path]
    } else {
        resolved
    }
}

proof fn lemma_map_of_index(entries: Seq<IconSlot>, i: int)
    requires
        0 <= i < entries.len(),
        forall|a: int, b: int|
            0 <= a < b < entries.len() ==> entries[a].path@ != entries[b].path@,
    ensures
        map_of(entries).contains_key(entries[i].path@),
        map_of(entries)[entries[i].path@] == entries[i].icon,
    decreases entries.len(),
{
    if i < entries.len() - 1 {
        lemma_map_of_index(entries.drop_last(), i);
    }
}

proof fn lemma_map_of_absent(entries: Seq<IconSlot>, p: Seq<char>)
    requires
        forall|a: int| 0 <= a < entries.len() ==> entries[a].path@ != p,
    ensures
        !map_of(entries).contains_key(p),
    decreases entries.len(),
{
    if entries.len() > 0 {
        lemma_map_of_absent(entries.drop_last(), p);
    }
}

impl View for IconCache {
    type V = Map<Seq<char>, Option<IconHandle>>;

    closed spec fn view(&self) -> Map<Seq<char>, Option<IconHandle>> {
        map_of(self.entries@)
    }
}

impl IconCache {
    pub closed spec fn wf(&self) -> bool {
        forall|a: int, b: int|
            0 <= a < b < self.entries@.len() ==> self.entries@[a].path@ != self.entries@[b].path@
    }

    pub fn new() -> (r: Self)
        ensures
            r.wf(),
            r@ == Map::<Seq<char>, Option<IconHandle>>::empty(),
    {
        IconCache { entries: Vec::new() }
    }

    /// The cached result for `path`: `None` when the path was never
    /// resolved, `Some(cached)` otherwise — where `cached` itself may be
    /// the recorded negative result.
    pub fn lookup(&self, path: &String) -> (r: Option<Option<IconHandle>>)
        requires
            self.wf(),
        ensures
            r == (if self@.contains_key(path@) {
                Some(self@[path@])
            } else {
                None::<Option<IconHandle>>
            }),
    {
        let n = self.entries.len();
        let mut i: usize = 0;
        while i < n
            invariant
                i <= n,
                n == self.entries@.len(),
                self.wf(),
                forall|a: int| 0 <= a < i ==> self.entries@[a].path@ != path@,
            decreases n - i,
        {
            if self.entries[i].path == *path {
                proof {
                    lemma_map_of_index(self.entries@, i as int);
                }
                return Some(self.entries[i].icon);
            }
            i = i + 1;
        }
        proof {
            lemma_map_of_absent(self.entries@, path@);
        }
        None
    }

    /// Record what resolving `path` produced, unless the path is already
    /// cached, in which case the cached result stands and the fresh value
    /// is discarded; returns the result that now stands for `path`.
    pub fn resolve(&mut self, path: &String, resolved: Option<IconHandle>) -> (r: Option<
        IconHandle,
    >)
        requires
            old(self).wf(),
        ensures
            final(self).wf(),
            final(self)@ == resolve_map_spec(old(self)@, path@, resolved),
            r == resolve_result_spec(old(self)@, path@, resolved),
    {
        match self.lookup(path) {
            Some(cached) => cached,
            None => {
                proof {
                    assert forall|a: int|
                        0 <= a < self.entries@.len() implies self.entries@[a].path@
                        != path@ by {
                        if self.entries@[a].path@ == path@ {
                            lemma_map_of_index(self.entries@, a);
                        }
                    }
                }
                let ghost pre = self.entries@;
                self.entries.push(IconSlot { path: path.clone(), icon: resolved });
                proof {
                    assert(self.entries@.drop_last() =~= pre);
                }
                resolved
            },
        }
    }
}

/// Resolution idempotence: once a path has a recorded result, resolving it
/// again — with any later resolution — changes nothing and returns the
/// originally recorded result.
pub proof fn lemma_resolve_idempotent(
    m: Map<Seq<char>, Option<IconHandle>>,
    path: Seq<char>,
    first: Option<IconHandle>,
    second: Option<IconHandle>,
)
    ensures
        resolve_map_spec(resolve_map_spec(m, path, first), path, second) == resolve_map_spec(
            m,
            path,
            first,
        ),
        resolve_result_spec(resolve_map_spec(m, path, first), path, second)
            == resolve_result_spec(m, path, first),
{
}

} // verus!
