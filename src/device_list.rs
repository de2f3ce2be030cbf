use vstd::prelude::*;

verus! {

/// The most entries that a walk over a null-terminated array reads.
pub const MAX_LIST_ENTRIES: usize = 65536;

/// What the native library reports of one scanning device, as plain bytes
/// (each text without its terminating zero).
#[derive(Debug, Clone, PartialEq, Eq)]
pub struct DeviceDescription {
    pub name: Vec<u8>,
    pub vendor: Vec<u8>,
    pub model: Vec<u8>,
    pub type_: Vec<u8>,
}

/// How many entries lead `entries` before its first null (`false`) one.
pub open spec fn leading_entries(entries: Seq<bool>) -> nat
    decreases entries.len(),
{
    if entries.len() == 0 || !entries[0] {
        0
    } else {
        1 + leading_entries(entries.drop_first())
    }
}

/// A walk over an array of pointers that ends with a null one (the device
/// list, the texts of a string-list constraint). The caller reads entry
/// `count` while `wants_more` holds and reports whether it was null; the walk
/// never goes past `limit` entries.
pub struct NullTerminatedWalk {
    /// How many entries before the null one have been read.
    pub count: usize,
    /// The most entries that the walk reads.
    pub limit: usize,
    /// Whether the null entry has been read.
    pub ended: bool,
    /// Each entry read so far: `true` for one that is not null.
    pub seen: Ghost<Seq<bool>>,
}

impl NullTerminatedWalk {
    /// What the walk knows of the entries that it has read.
    pub open spec fn wf(self) -> bool {
        &&& self.count <= self.limit
        &&& self.seen@.len() == self.count + if self.ended {
            1int
        } else {
            0int
        }
        &&& forall|i: int| 0 <= i < self.count ==> #[trigger] self.seen@[i]
        &&& self.ended ==> !self.seen@[self.count as int]
    }

    /// Whether another entry is to be read.
    pub open spec fn wants_more_spec(self) -> bool {
        !self.ended && self.count < self.limit
    }

    /// A walk that reads at most `limit` entries before the null one.
    pub fn new(limit: usize) -> (r: NullTerminatedWalk)
        ensures
            r.wf(),
            r.count == 0,
            r.limit == limit,
            !r.ended,
            r.seen@ == Seq::<bool>::empty(),
    {
        NullTerminatedWalk { count: 0, limit, ended: false, seen: Ghost(Seq::empty()) }
    }

    /// Whether entry `count` is to be read: the null entry has not been
    /// read yet, and the limit is not reached.
    pub fn wants_more(&self) -> (r: bool)
        ensures
            r == self.wants_more_spec(),
    {
        !self.ended && self.count < self.limit
    }

    /// Takes whether entry `count` was a non-null one.
    pub fn record(&mut self, present: bool)
        requires
            old(self).wf(),
            old(self).wants_more_spec(),
        ensures
            final(self).wf(),
            final(self).limit == old(self).limit,
            final(self).seen@ == old(self).seen@.push(present),
            present ==> final(self).count == old(self).count + 1 && !final(self).ended,
            !present ==> final(self).count == old(self).count && final(self).ended,
    {
        self.seen = Ghost(self.seen@.push(present));
        if present {
            self.count = self.count + 1;
        } else {
            self.ended = true;
        }
    }
}

/// A walk that has read the null entry has counted exactly the entries that
/// come before it; one that has not has found no null entry yet.
pub proof fn lemma_walk_counts_entries(walk: NullTerminatedWalk)
    requires
        walk.wf(),
    ensures
        walk.ended ==> walk.count == leading_entries(walk.seen@),
        !walk.ended ==> walk.count == walk.seen@.len() && walk.count == leading_entries(walk.seen@),
{
    lemma_leading_entries(walk.seen@, walk.count as nat);
}

proof fn lemma_leading_entries(s: Seq<bool>, n: nat)
    requires
        n <= s.len(),
        forall|i: int| 0 <= i < n ==> #[trigger] s[i],
        n < s.len() ==> !s[n as int],
    ensures
        leading_entries(s) == n,
    decreases n,
{
    if n > 0 {
        let t = s.drop_first();
        assert forall|i: int| 0 <= i < n - 1 implies #[trigger] t[i] by {
            assert(s[i + 1]);
        }
        lemma_leading_entries(t, (n - 1) as nat);
    }
}

} // verus!
