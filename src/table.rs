use vstd::prelude::*;
use crate::data::DockerStats;

verus! {

/// No two samples share a name.
pub open spec fn names_unique(t: Seq<DockerStats>) -> bool {
    forall|i: int, j: int|
        0 <= i < t.len() && 0 <= j < t.len() && i != j ==> t[i].name@ != t[j].name@
}

/// Whether a sample named `name` is in `t`.
pub open spec fn has_name(t: Seq<DockerStats>, name: Seq<char>) -> bool {
    exists|i: int| 0 <= i < t.len() && t[i].name@ == name
}

/// The table after `s` is recorded: it replaces the sample of the same name in
/// its place, or joins at the end when its name is new.
pub open spec fn upserted(t: Seq<DockerStats>, s: DockerStats) -> Seq<DockerStats> {
    if has_name(t, s.name@) {
        let i = choose|i: int| 0 <= i < t.len() && t[i].name@ == s.name@;
        t.update(i, s)
    } else {
        t.push(s)
    }
}

/// The latest sample of each container, in the order their names were first seen.
pub struct ContainerTable {
    items: Vec<DockerStats>,
}

impl ContainerTable {
    pub closed spec fn view(&self) -> Seq<DockerStats> {
        self.items@
    }

    pub open spec fn wf(&self) -> bool {
        names_unique(self.view())
    }

    pub fn new() -> (r: Self)
        ensures
            r.view() == Seq::<DockerStats>::empty(),
            r.wf(),
    {
        ContainerTable { items: Vec::new() }
    }

    pub fn len(&self) -> (r: usize)
        ensures
            r == self.view().len(),
    {
        self.items.len()
    }

    /// Records a sample: replaces the one of the same name in place, or appends.
    pub fn upsert(&mut self, stats: DockerStats)
        requires
            old(self).wf(),
        ensures
            final(self).wf(),
            final(self).view() == upserted(old(self).view(), stats),
    {
        let n = self.items.len();
        let mut i: usize = 0;
        while i < n
            invariant
                i <= n,
                n == self.items@.len(),
                self.items@ == old(self).items@,
                names_unique(self.items@),
                forall|k: int| 0 <= k < i ==> self.items@[k].name@ != stats.name@,
            decreases n - i,
        {
            if self.items[i].name == stats.name {
                let ghost t = self.items@;
                proof {
                    let j = choose|j: int| 0 <= j < t.len() && t[j].name@ == stats.name@;
                    assert(j == i as int);
                }
                self.items.set(i, stats);
                assert(forall|k: int| 0 <= k < n && k != i ==> #[trigger] self.items@[k] == t[k]);
                return;
            }
            i = i + 1;
        }
        self.items.push(stats);
    }

    /// Empties the table.
    pub fn clear(&mut self)
        ensures
            final(self).view() == Seq::<DockerStats>::empty(),
            final(self).wf(),
    {
        self.items = Vec::new();
    }

    /// A copy of the current contents, detached from the table.
    pub fn snapshot(&self) -> (r: Vec<DockerStats>)
        ensures
            r@ == self.view(),
    {
        let mut out: Vec<DockerStats> = Vec::new();
        let n = self.items.len();
        let mut i: usize = 0;
        while i < n
            invariant
                i <= n,
                n == self.items@.len(),
                out@ == self.items@.subrange(0, i as int),
            decreases n - i,
        {
            out.push(self.items[i].duplicate());
            i = i + 1;
            assert(out@ =~= self.items@.subrange(0, i as int));
        }
        assert(self.items@.subrange(0, n as int) =~= self.items@);
        out
    }
}

} // verus!

verus! {

/// Recording a sample under a name already present leaves the table's length
/// unchanged, puts the sample in that entry's place, and leaves every other
/// entry where it was.
pub proof fn lemma_upsert_present_name(t: Seq<DockerStats>, s: DockerStats, i: int)
    requires
        names_unique(t),
        0 <= i < t.len(),
        t[i].name@ == s.name@,
    ensures
        upserted(t, s).len() == t.len(),
        upserted(t, s)[i] == s,
        forall|j: int| 0 <= j < t.len() && j != i ==> upserted(t, s)[j] == t[j],
        names_unique(upserted(t, s)),
{
    let k = choose|k: int| 0 <= k < t.len() && t[k].name@ == s.name@;
    assert(k == i);
}

/// Recording a sample under a new name adds exactly one entry, at the end,
/// and leaves the others where they were.
pub proof fn lemma_upsert_new_name(t: Seq<DockerStats>, s: DockerStats)
    requires
        names_unique(t),
        !has_name(t, s.name@),
    ensures
        upserted(t, s).len() == t.len() + 1,
        upserted(t, s)[t.len() as int] == s,
        forall|j: int| 0 <= j < t.len() ==> upserted(t, s)[j] == t[j],
        names_unique(upserted(t, s)),
{
}

} // verus!
