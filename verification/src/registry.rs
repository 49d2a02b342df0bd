use vstd::prelude::*;

verus! {

/// The views of a sequence of owned strings.
pub open spec fn name_views(names: Seq<String>) -> Seq<Seq<char>> {
    names.map_values(|s: String| s@)
}

/// The map described by parallel sequences of names and identifiers, where a
/// later entry for a name overrides an earlier one.
pub open spec fn assoc_map(names: Seq<Seq<char>>, ids: Seq<usize>) -> Map<Seq<char>, usize>
    decreases names.len(),
{
    if names.len() == 0 {
        Map::empty()
    } else {
        assoc_map(names.drop_last(), ids.drop_last()).insert(names.last(), ids.last())
    }
}

proof fn lemma_assoc_found(names: Seq<Seq<char>>, ids: Seq<usize>, i: int)
    requires
        names.len() == ids.len(),
        0 <= i < names.len(),
        forall|j: int| i < j < names.len() ==> names[j] != names[i],
    ensures
        assoc_map(names, ids).contains_key(names[i]),
        assoc_map(names, ids)[names[i]] == ids[i],
    decreases names.len(),
{
    if i < names.len() - 1 {
        assert(names.drop_last()[i] == names[i]);
        lemma_assoc_found(names.drop_last(), ids.drop_last(), i);
    }
}

proof fn lemma_assoc_absent(names: Seq<Seq<char>>, ids: Seq<usize>, n: Seq<char>)
    requires
        names.len() == ids.len(),
        forall|j: int| 0 <= j < names.len() ==> names[j] != n,
    ensures
        !assoc_map(names, ids).contains_key(n),
    decreases names.len(),
{
    if names.len() > 0 {
        lemma_assoc_absent(names.drop_last(), ids.drop_last(), n);
    }
}

/// One category of the handle registry: a mapping from human-readable asset
/// names to dense index-based identifiers.  Registering an existing name
/// overrides the mapping (the previously mapped slot becomes orphaned, which
/// is only reachable right after a clear in normal use).
pub struct NameRegistry {
    names: Vec<String>,
    ids: Vec<usize>,
}

impl View for NameRegistry {
    type V = Map<Seq<char>, usize>;

    closed spec fn view(&self) -> Map<Seq<char>, usize> {
        assoc_map(name_views(self.names@), self.ids@)
    }
}

impl NameRegistry {
    /// The two parallel columns of the registry always have the same length.
    pub closed spec fn wf(self) -> bool {
        self.names@.len() == self.ids@.len()
    }

    /// How many register calls the registry has absorbed since its last
    /// clear (overridden entries still count: their array slots are orphaned
    /// but occupied).
    pub closed spec fn entry_count(self) -> nat {
        self.names@.len()
    }

    /// All identifier values stored in the registry are below `bound`.
    pub open spec fn ids_below(self, bound: nat) -> bool {
        forall|n: Seq<char>| #[trigger] self@.contains_key(n) ==> (self@[n] as nat) < bound
    }

    pub fn new() -> (r: Self)
        ensures
            r.wf(),
            r@ == Map::<Seq<char>, usize>::empty(),
            r.entry_count() == 0,
    {
        let r = NameRegistry { names: Vec::new(), ids: Vec::new() };
        proof {
            assert(name_views(r.names@) =~= Seq::<Seq<char>>::empty());
        }
        r
    }

    /// Record that `name` now maps to `id`.
    pub fn register(&mut self, name: &str, id: usize)
        requires
            old(self).wf(),
        ensures
            final(self).wf(),
            final(self)@ == old(self)@.insert(name@, id),
            final(self).entry_count() == old(self).entry_count() + 1,
    {
        self.names.push(name.to_owned());
        self.ids.push(id);
        proof {
            assert(name_views(self.names@).drop_last() =~= name_views(old(self).names@));
            assert(self.ids@.drop_last() =~= old(self).ids@);
            assert(name_views(self.names@).last() == name@);
        }
    }

    /// Look the identifier registered for `name` up; `None` if the name was
    /// never registered (or not since the last clear).
    pub fn resolve(&self, name: &str) -> (r: Option<usize>)
        requires
            self.wf(),
        ensures
            self@.contains_key(name@) ==> r == Some(self@[name@]),
            !self@.contains_key(name@) ==> r is None,
    {
        let key: String = name.to_owned();
        let ghost nv = name_views(self.names@);
        let mut i: usize = self.names.len();
        while i > 0
            invariant
                self.wf(),
                i <= self.names@.len(),
                nv == name_views(self.names@),
                key@ == name@,
                forall|j: int| i <= j < nv.len() ==> nv[j] != name@,
            decreases i,
        {
            i = i - 1;
            if self.names[i] == key {
                proof {
                    assert(nv[i as int] == name@);
                    lemma_assoc_found(nv, self.ids@, i as int);
                }
                return Some(self.ids[i]);
            }
            proof {
                assert(nv[i as int] != name@);
            }
        }
        proof {
            lemma_assoc_absent(nv, self.ids@, name@);
        }
        None
    }

    /// Whether `name` is currently registered.
    pub fn contains(&self, name: &str) -> (r: bool)
        requires
            self.wf(),
        ensures
            r == self@.contains_key(name@),
    {
        self.resolve(name).is_some()
    }

    /// Forget every registered name.
    pub fn clear(&mut self)
        ensures
            final(self).wf(),
            final(self)@ == Map::<Seq<char>, usize>::empty(),
            final(self).entry_count() == 0,
    {
        self.names.clear();
        self.ids.clear();
        proof {
            assert(name_views(self.names@) =~= Seq::<Seq<char>>::empty());
        }
    }
}

/// Law: after a register call, which updates the registry's map to
/// `m.insert(name, id)`, resolving `name` finds exactly `id`; and a name that
/// no register call ever mentioned is absent from the map that an initially
/// empty registry has built up, so resolving it fails.
pub proof fn lemma_register_then_resolve(m: Map<Seq<char>, usize>, name: Seq<char>, id: usize)
    ensures
        m.insert(name, id).contains_key(name),
        m.insert(name, id)[name] == id,
        forall|other: Seq<char>| other != name && !m.contains_key(other)
            ==> !m.insert(name, id).contains_key(other),
{
}

} // verus!
