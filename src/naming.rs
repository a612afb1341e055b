//! Naming environment: per-name index allocation for renaming identifiers
//! across nested scopes. Allocation returns a new environment and leaves the
//! receiver as it was, so that branches of a traversal can diverge.

use vstd::prelude::*;

verus! {

/// A finite map from names to indices, kept as a list of entries whose names
/// are pairwise distinct.
#[derive(Clone)]
struct NameTable {
    entries: Vec<(String, usize)>,
}

impl View for NameTable {
    type V = Map<Seq<char>, usize>;

    closed spec fn view(&self) -> Map<Seq<char>, usize> {
        Map::new(
            |k: Seq<char>| exists|i: int| 0 <= i < self.entries.len() && self.entries[i].0@ == k,
            |k: Seq<char>|
                self.entries[choose|i: int|
                    0 <= i < self.entries.len() && self.entries[i].0@ == k].1,
        )
    }
}

impl NameTable {
    spec fn wf(&self) -> bool {
        forall|i: int, j: int|
            0 <= i < j < self.entries.len() ==> self.entries[i].0@ != self.entries[j].0@
    }

    proof fn lemma_entry(&self, i: int)
        requires
            self.wf(),
            0 <= i < self.entries.len(),
        ensures
            self@.contains_key(self.entries[i].0@),
            self@[self.entries[i].0@] == self.entries[i].1,
    {
        let k = self.entries[i].0@;
        assert(exists|j: int| 0 <= j < self.entries.len() && self.entries[j].0@ == k);
        let j = choose|j: int| 0 <= j < self.entries.len() && self.entries[j].0@ == k;
        assert(j == i);
    }

    fn new() -> (r: NameTable)
        ensures
            r.wf(),
            r@ == Map::<Seq<char>, usize>::empty(),
    {
        let r = NameTable { entries: Vec::new() };
        assert(r@ =~= Map::<Seq<char>, usize>::empty());
        r
    }

    /// Position of the entry for `name`, if there is one.
    fn find(&self, name: &String) -> (r: Option<usize>)
        ensures
            match r {
                Some(i) => i < self.entries.len() && self.entries[i as int].0@ == name@,
                None => forall|i: int|
                    0 <= i < self.entries.len() ==> self.entries[i].0@ != name@,
            },
    {
        let mut i: usize = 0;
        while i < self.entries.len()
            invariant
                i <= self.entries.len(),
                forall|j: int| 0 <= j < i ==> self.entries[j].0@ != name@,
            decreases self.entries.len() - i,
        {
            if self.entries[i].0 == *name {
                return Some(i);
            }
            i = i + 1;
        }
        None
    }

    fn get(&self, name: &String) -> (r: Option<usize>)
        requires
            self.wf(),
        ensures
            r == (if self@.contains_key(name@) {
                Some(self@[name@])
            } else {
                None::<usize>
            }),
    {
        match self.find(name) {
            Some(i) => {
                proof {
                    self.lemma_entry(i as int);
                }
                Some(self.entries[i].1)
            },
            None => None,
        }
    }

    fn insert(&mut self, name: &String, value: usize)
        requires
            old(self).wf(),
        ensures
            final(self).wf(),
            final(self)@ == old(self)@.insert(name@, value),
    {
        let ghost before = *self;
        match self.find(name) {
            Some(i) => {
                self.entries.set(i, (name.clone(), value));
                assert(self.wf());
                assert forall|k: Seq<char>|
                    #![trigger self@.dom().contains(k)]
                    #![trigger before@.dom().contains(k)]
                    self@.contains_key(k) == before@.insert(name@, value).contains_key(k)
                        && (self@.contains_key(k) ==> self@[k] == before@.insert(
                        name@,
                        value,
                    )[k]) by {
                    if k == name@ {
                        self.lemma_entry(i as int);
                    } else if exists|j: int| 0 <= j < self.entries.len() && self.entries[j].0@ == k {
                        let j = choose|j: int|
                            0 <= j < self.entries.len() && self.entries[j].0@ == k;
                        self.lemma_entry(j);
                        before.lemma_entry(j);
                    } else {
                        if before@.contains_key(k) {
                            let j = choose|j: int|
                                0 <= j < before.entries.len() && before.entries[j].0@ == k;
                            assert(self.entries[j].0@ == k);
                        }
                    }
                }
                assert(self@ =~= before@.insert(name@, value));
            },
            None => {
                let entry = (name.clone(), value);
                self.entries.push(entry);
                assert(self.entries@ == before.entries@.push(entry));
                assert(self.entries[before.entries.len() as int].0@ == name@);
                assert(self.wf());
                assert forall|k: Seq<char>|
                    #![trigger self@.dom().contains(k)]
                    #![trigger before@.dom().contains(k)]
                    self@.contains_key(k) == before@.insert(name@, value).contains_key(k)
                        && (self@.contains_key(k) ==> self@[k] == before@.insert(
                        name@,
                        value,
                    )[k]) by {
                    if exists|j: int| 0 <= j < self.entries.len() && self.entries[j].0@ == k {
                        let j = choose|j: int|
                            0 <= j < self.entries.len() && self.entries[j].0@ == k;
                        self.lemma_entry(j);
                        if j < before.entries.len() {
                            before.lemma_entry(j);
                        }
                    } else {
                        if before@.contains_key(k) {
                            let j = choose|j: int|
                                0 <= j < before.entries.len() && before.entries[j].0@ == k;
                            assert(self.entries[j].0@ == k);
                        }
                    }
                }
                assert(self@ =~= before@.insert(name@, value));
            },
        }
    }

    fn copy(&self) -> (r: NameTable)
        requires
            self.wf(),
        ensures
            r.wf(),
            r@ == self@,
            r.entries@ == self.entries@,
    {
        let mut entries: Vec<(String, usize)> = Vec::new();
        let mut i: usize = 0;
        while i < self.entries.len()
            invariant
                i <= self.entries.len(),
                entries@ == self.entries@.subrange(0, i as int),
            decreases self.entries.len() - i,
        {
            let name = self.entries[i].0.clone();
            entries.push((name, self.entries[i].1));
            assert(entries@ =~= self.entries@.subrange(0, i + 1));
            i = i + 1;
        }
        assert(entries@ =~= self.entries@);
        NameTable { entries }
    }
}

/// A naming environment: for each name, the index it has in the current scope
/// and the largest index ever allocated to it. Index 0 stands for the name
/// itself, not yet renamed.
#[derive(Clone)]
pub struct NamingEnv {
    /// Index of each name in the current scope.
    current_naming_index: NameTable,
    /// Largest index allocated to each name so far, over all scopes.
    naming_index_counter: NameTable,
}

impl NamingEnv {
    /// Index of each name in the current scope.
    pub closed spec fn current_indices(&self) -> Map<Seq<char>, usize> {
        self.current_naming_index@
    }

    /// Largest index allocated to each name so far.
    pub closed spec fn index_counters(&self) -> Map<Seq<char>, usize> {
        self.naming_index_counter@
    }

    /// Both tables are well formed, and every name with a current index has a
    /// counter no smaller than it.
    pub closed spec fn wf(&self) -> bool {
        &&& self.current_naming_index.wf()
        &&& self.naming_index_counter.wf()
        &&& forall|k: Seq<char>|
            #[trigger] self.current_indices().contains_key(k) ==> self.index_counters().contains_key(
                k,
            ) && self.current_indices()[k] <= self.index_counters()[k]
    }

    /// The index that the next allocation for `name` hands out: one past its
    /// counter, or 0 on its first allocation.
    pub open spec fn next_index(&self, name: Seq<char>) -> int {
        if self.index_counters().contains_key(name) {
            self.index_counters()[name] + 1
        } else {
            0
        }
    }

    /// The counter of `name` leaves room for one more allocation.
    pub open spec fn can_allocate(&self, name: Seq<char>) -> bool {
        self.index_counters().contains_key(name) ==> self.index_counters()[name] < usize::MAX
    }

    /// `next` is this environment after allocating a fresh index for `name`.
    pub open spec fn allocates_into(&self, name: Seq<char>, next: NamingEnv) -> bool {
        &&& next.wf()
        &&& next.current_indices() == self.current_indices().insert(
            name,
            self.next_index(name) as usize,
        )
        &&& next.index_counters() == self.index_counters().insert(
            name,
            self.next_index(name) as usize,
        )
    }

    /// `r` is what allocating a fresh index for `name` returns: the index,
    /// reported as absent when it is 0, and the new environment.
    pub open spec fn is_allocation(&self, name: Seq<char>, r: (Option<usize>, NamingEnv)) -> bool {
        &&& self.allocates_into(name, r.1)
        &&& r.0 == (if self.next_index(name) == 0 {
            None::<usize>
        } else {
            Some(self.next_index(name) as usize)
        })
    }

    /// An empty environment.
    pub fn new() -> (r: NamingEnv)
        ensures
            r.wf(),
            r.current_indices() == Map::<Seq<char>, usize>::empty(),
            r.index_counters() == Map::<Seq<char>, usize>::empty(),
    {
        NamingEnv { current_naming_index: NameTable::new(), naming_index_counter: NameTable::new() }
    }

    /// The index of `name` in the current scope; absent when the name has no
    /// index here or its index is 0.
    pub fn get_current_index(&self, name: &str) -> (r: Option<usize>)
        requires
            self.wf(),
        ensures
            r == (if self.current_indices().contains_key(name@) && self.current_indices()[name@]
                != 0 {
                Some(self.current_indices()[name@])
            } else {
                None::<usize>
            }),
            !self.current_indices().contains_key(name@) ==> r is None,
    {
        let key = name.to_owned();
        match self.current_naming_index.get(&key) {
            None => None,
            Some(idx) => if idx == 0 {
                None
            } else {
                Some(idx)
            },
        }
    }

    /// Allocates a fresh index for `name`: one past its counter, or 0 on its
    /// first allocation. Returns the index (absent when it is 0) and a new
    /// environment in which both the current index and the counter of `name`
    /// are that index. The receiver is left unchanged.
    pub fn create_new_name_index(&self, name: &String) -> (r: (Option<usize>, NamingEnv))
        requires
            self.wf(),
            self.can_allocate(name@),
        ensures
            self.is_allocation(name@, r),
    {
        let new_idx: usize = match self.naming_index_counter.get(name) {
            None => 0,
            Some(idx) => idx + 1,
        };
        let mut current_naming_index = self.current_naming_index.copy();
        let mut naming_index_counter = self.naming_index_counter.copy();
        current_naming_index.insert(name, new_idx);
        naming_index_counter.insert(name, new_idx);
        let new_env = NamingEnv { current_naming_index, naming_index_counter };
        assert forall|k: Seq<char>| #[trigger]
            new_env.current_indices().contains_key(k) implies new_env.index_counters().contains_key(
            k,
        ) && new_env.current_indices()[k] <= new_env.index_counters()[k] by {
            if k != name@ {
                assert(self.current_indices().contains_key(k));
            }
        }
        let final_idx = if new_idx == 0 {
            None
        } else {
            Some(new_idx)
        };
        (final_idx, new_env)
    }
}

/// In every well-formed environment, a name's current index never exceeds its
/// counter.
pub proof fn lemma_current_within_counter(e: NamingEnv)
    requires
        e.wf(),
    ensures
        forall|k: Seq<char>| #[trigger]
            e.current_indices().contains_key(k) ==> e.index_counters().contains_key(k)
                && e.current_indices()[k] <= e.index_counters()[k],
{
}

/// Allocating from one environment is a function of that environment: two
/// independent allocations of the same name from `e` give the same index and
/// equal environments. For a name that `e` has never allocated, the index is
/// absent.
pub proof fn lemma_allocation_independent(
    e: NamingEnv,
    name: Seq<char>,
    r1: (Option<usize>, NamingEnv),
    r2: (Option<usize>, NamingEnv),
)
    requires
        e.is_allocation(name, r1),
        e.is_allocation(name, r2),
    ensures
        r1.0 == r2.0,
        r1.1.current_indices() == r2.1.current_indices(),
        r1.1.index_counters() == r2.1.index_counters(),
        !e.index_counters().contains_key(name) ==> r1.0 is None,
{
}

/// One allocation keeps every counter and never lowers one.
proof fn lemma_allocation_keeps_counters(e: NamingEnv, name: Seq<char>, next: NamingEnv)
    requires
        e.can_allocate(name),
        e.allocates_into(name, next),
    ensures
        forall|k: Seq<char>| #[trigger]
            e.index_counters().contains_key(k) ==> next.index_counters().contains_key(k)
                && e.index_counters()[k] <= next.index_counters()[k],
{
}

proof fn lemma_counters_monotone_prefix(envs: Seq<NamingEnv>, names: Seq<Seq<char>>, n: int)
    requires
        envs.len() == names.len() + 1,
        0 <= n <= envs.len(),
        forall|i: int|
            0 <= i < names.len() ==> #[trigger] envs[i].can_allocate(names[i])
                && envs[i].allocates_into(names[i], envs[i + 1]),
    ensures
        forall|i: int, j: int, k: Seq<char>|
            0 <= i <= j < n && #[trigger] envs[i].index_counters().contains_key(k) ==> (
            #[trigger] envs[j].index_counters()).contains_key(k) && envs[i].index_counters()[k]
                <= envs[j].index_counters()[k],
    decreases n,
{
    if n > 1 {
        lemma_counters_monotone_prefix(envs, names, n - 1);
        assert(envs[n - 2].can_allocate(names[n - 2]));
        lemma_allocation_keeps_counters(envs[n - 2], names[n - 2], envs[n - 1]);
    }
}

/// Along any sequence of allocations, each starting from the environment the
/// previous one returned, no counter is ever lost or lowered.
pub proof fn lemma_counters_monotone(envs: Seq<NamingEnv>, names: Seq<Seq<char>>)
    requires
        envs.len() == names.len() + 1,
        forall|i: int|
            0 <= i < names.len() ==> #[trigger] envs[i].can_allocate(names[i])
                && envs[i].allocates_into(names[i], envs[i + 1]),
    ensures
        forall|i: int, j: int, k: Seq<char>|
            0 <= i <= j < envs.len() && #[trigger] envs[i].index_counters().contains_key(k) ==> (
            #[trigger] envs[j].index_counters()).contains_key(k) && envs[i].index_counters()[k]
                <= envs[j].index_counters()[k],
{
    lemma_counters_monotone_prefix(envs, names, envs.len() as int);
}

} // verus!
