use vstd::prelude::*;

verus! {

/// The mapping that a list of name and value pairs stands for: a later pair
/// replaces an earlier one of the same name.
pub open spec fn collect(pairs: Seq<(String, String)>) -> Map<Seq<char>, Seq<char>>
    decreases pairs.len(),
{
    if pairs.len() == 0 {
        Map::empty()
    } else {
        collect(pairs.drop_last()).insert(pairs.last().0@, pairs.last().1@)
    }
}

/// No two pairs have the same name.
pub open spec fn distinct_names(pairs: Seq<(String, String)>) -> bool {
    forall|i: int, j: int|
        0 <= i < j < pairs.len() ==> (#[trigger] pairs[i]).0@ != (#[trigger] pairs[j]).0@
}

/// The names of the pairs are the names that the mapping knows.
pub proof fn lemma_collect_names(pairs: Seq<(String, String)>, name: Seq<char>)
    ensures
        collect(pairs).contains_key(name) <==> exists|i: int|
            0 <= i < pairs.len() && (#[trigger] pairs[i]).0@ == name,
    decreases pairs.len(),
{
    if pairs.len() > 0 {
        let before = pairs.drop_last();
        lemma_collect_names(before, name);
        if collect(pairs).contains_key(name) {
            if pairs.last().0@ == name {
                assert(pairs[pairs.len() - 1].0@ == name);
            } else {
                let i = choose|i: int| 0 <= i < before.len() && (#[trigger] before[i]).0@ == name;
                assert(pairs[i].0@ == name);
            }
        }
        if exists|i: int| 0 <= i < pairs.len() && (#[trigger] pairs[i]).0@ == name {
            let i = choose|i: int| 0 <= i < pairs.len() && (#[trigger] pairs[i]).0@ == name;
            if i < before.len() {
                assert(before[i].0@ == name);
            }
        }
    }
}

/// Where the names are distinct, each pair's name maps to that pair's value.
pub proof fn lemma_collect_value(pairs: Seq<(String, String)>, at: int)
    requires
        distinct_names(pairs),
        0 <= at < pairs.len(),
    ensures
        collect(pairs).contains_key(pairs[at].0@),
        collect(pairs)[pairs[at].0@] == pairs[at].1@,
    decreases pairs.len(),
{
    let before = pairs.drop_last();
    if at < before.len() {
        assert(distinct_names(before)) by {
            assert forall|i: int, j: int| 0 <= i < j < before.len() implies (#[trigger] before[i]).0@
                != (#[trigger] before[j]).0@ by {
                assert(pairs[i].0@ != pairs[j].0@);
            }
        }
        lemma_collect_value(before, at);
        assert(before[at] == pairs[at]);
        assert(pairs[at].0@ != pairs[pairs.len() - 1].0@);
    }
}

/// Replacing the value of one pair replaces what its name maps to, where
/// the names are distinct.
pub proof fn lemma_collect_update(pairs: Seq<(String, String)>, at: int, pair: (String, String))
    requires
        distinct_names(pairs),
        0 <= at < pairs.len(),
        pair.0@ == pairs[at].0@,
    ensures
        collect(pairs.update(at, pair)) == collect(pairs).insert(pair.0@, pair.1@),
        distinct_names(pairs.update(at, pair)),
    decreases pairs.len(),
{
    let after = pairs.update(at, pair);
    assert(distinct_names(after)) by {
        assert forall|i: int, j: int| 0 <= i < j < after.len() implies (#[trigger] after[i]).0@
            != (#[trigger] after[j]).0@ by {
            assert(pairs[i].0@ != pairs[j].0@);
        }
    }
    let before = pairs.drop_last();
    if at == pairs.len() - 1 {
        assert(after.drop_last() =~= before);
        assert(collect(after) =~= collect(pairs).insert(pair.0@, pair.1@));
    } else {
        assert(distinct_names(before)) by {
            assert forall|i: int, j: int| 0 <= i < j < before.len() implies (#[trigger] before[i]).0@
                != (#[trigger] before[j]).0@ by {
                assert(pairs[i].0@ != pairs[j].0@);
            }
        }
        lemma_collect_update(before, at, pair);
        assert(after.drop_last() =~= before.update(at, pair));
        assert(after.last() == pairs.last());
        assert(pairs[at].0@ != pairs[pairs.len() - 1].0@);
        assert(collect(after) =~= collect(pairs).insert(pair.0@, pair.1@));
    }
}

/// Where the names are distinct, the mapping knows as many names as there
/// are pairs.
pub proof fn lemma_collect_len(pairs: Seq<(String, String)>)
    requires
        distinct_names(pairs),
    ensures
        collect(pairs).dom().finite(),
        collect(pairs).len() == pairs.len(),
    decreases pairs.len(),
{
    if pairs.len() > 0 {
        let before = pairs.drop_last();
        assert(distinct_names(before)) by {
            assert forall|i: int, j: int| 0 <= i < j < before.len() implies (#[trigger] before[i]).0@
                != (#[trigger] before[j]).0@ by {
                assert(pairs[i].0@ != pairs[j].0@);
            }
        }
        lemma_collect_len(before);
        lemma_collect_names(before, pairs.last().0@);
        assert(!collect(before).contains_key(pairs.last().0@)) by {
            if collect(before).contains_key(pairs.last().0@) {
                let i = choose|i: int|
                    0 <= i < before.len() && (#[trigger] before[i]).0@ == pairs.last().0@;
                assert(pairs[i].0@ != pairs[pairs.len() - 1].0@);
            }
        }
        assert(collect(pairs).dom() =~= collect(before).dom().insert(pairs.last().0@));
    } else {
        assert(collect(pairs).dom() =~= Set::<Seq<char>>::empty());
    }
}

/// A snapshot of a form: what each named field holds.
#[derive(Debug, Clone)]
pub struct FormData {
    entries: Vec<(String, String)>,
}

impl View for FormData {
    type V = Map<Seq<char>, Seq<char>>;

    closed spec fn view(&self) -> Map<Seq<char>, Seq<char>> {
        collect(self.entries@)
    }
}

impl FormData {
    /// Every name is held once.
    pub closed spec fn wf(&self) -> bool {
        distinct_names(self.entries@)
    }

    /// How many pairs are held; where every name is held once, that is the
    /// number of names that the snapshot knows.
    pub closed spec fn count(&self) -> nat {
        self.entries@.len()
    }

    /// The snapshot of the given pairs, first to last: of two pairs with the
    /// same name the later one counts.
    pub fn new(data: Vec<(String, String)>) -> (r: Self)
        ensures
            r.wf(),
            r@ == collect(data@),
    {
        let mut r = FormData { entries: Vec::new() };
        let mut i: usize = 0;
        while i < data.len()
            invariant
                i <= data@.len(),
                r.wf(),
                r@ == collect(data@.subrange(0, i as int)),
            decreases data@.len() - i,
        {
            assert(data@.subrange(0, i + 1).drop_last() =~= data@.subrange(0, i as int));
            r.insert(data[i].0.clone(), data[i].1.clone());
            i += 1;
        }
        assert(data@.subrange(0, i as int) =~= data@);
        r
    }

    /// Sets what `name` maps to.
    pub fn insert(&mut self, name: String, value: String)
        requires
            old(self).wf(),
        ensures
            final(self).wf(),
            final(self)@ == old(self)@.insert(name@, value@),
    {
        let mut i: usize = 0;
        while i < self.entries.len()
            invariant
                i <= self.entries@.len(),
                self.entries@ == old(self).entries@,
                distinct_names(self.entries@),
                forall|k: int| 0 <= k < i ==> (#[trigger] self.entries@[k]).0@ != name@,
            decreases self.entries@.len() - i,
        {
            if self.entries[i].0 == name {
                proof {
                    lemma_collect_update(self.entries@, i as int, (name, value));
                }
                self.entries.set(i, (name, value));
                return ;
            }
            i += 1;
        }
        proof {
            let longer = self.entries@.push((name, value));
            assert(longer.drop_last() =~= self.entries@);
            assert forall|a: int, b: int| 0 <= a < b < longer.len() implies (#[trigger] longer[a]).0@
                != (#[trigger] longer[b]).0@ by {
                if b < self.entries@.len() {
                    assert(self.entries@[a].0@ != self.entries@[b].0@);
                } else {
                    assert(self.entries@[a].0@ != name@);
                }
            }
        }
        self.entries.push((name, value));
    }

    /// What `name` maps to, if the snapshot knows the name.
    pub fn get(&self, name: &String) -> (r: Option<String>)
        requires
            self.wf(),
        ensures
            match r {
                Some(value) => self@.contains_key(name@) && self@[name@] == value@,
                None => !self@.contains_key(name@),
            },
    {
        let mut i: usize = 0;
        while i < self.entries.len()
            invariant
                i <= self.entries@.len(),
                distinct_names(self.entries@),
                forall|k: int| 0 <= k < i ==> (#[trigger] self.entries@[k]).0@ != name@,
            decreases self.entries@.len() - i,
        {
            if self.entries[i].0 == *name {
                proof {
                    lemma_collect_value(self.entries@, i as int);
                }
                return Some(self.entries[i].1.clone());
            }
            i += 1;
        }
        proof {
            lemma_collect_names(self.entries@, name@);
        }
        None
    }

    /// The number of names held.
    pub fn len(&self) -> (n: usize)
        ensures
            n == self.count(),
            self.wf() ==> n == self@.len() && self@.dom().finite(),
    {
        proof {
            if self.wf() {
                lemma_collect_len(self.entries@);
            }
        }
        self.entries.len()
    }

    /// The pairs held, each name once, in the order in which the names came.
    pub fn pairs(&self) -> (r: &Vec<(String, String)>)
        ensures
            collect(r@) == self@,
            distinct_names(r@) == self.wf(),
            r@.len() == self.count(),
            self.wf() ==> r@.len() == self@.len(),
    {
        proof {
            if self.wf() {
                lemma_collect_len(self.entries@);
            }
        }
        &self.entries
    }
}

impl Default for FormData {
    fn default() -> (r: Self)
        ensures
            r.wf(),
            r@ == Map::<Seq<char>, Seq<char>>::empty(),
    {
        FormData { entries: Vec::new() }
    }
}

} // verus!
