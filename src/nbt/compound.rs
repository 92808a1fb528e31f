use vstd::prelude::*;

use super::NBT;

verus! {

/// The mapping that a sequence of entries stands for: a key maps to the
/// value of its first entry.
pub open spec fn map_of(s: Seq<(String, NBT)>) -> Map<Seq<char>, NBT>
    decreases s.len(),
{
    if s.len() == 0 {
        Map::empty()
    } else {
        map_of(s.subrange(1, s.len() as int)).insert(s[0].0@, s[0].1)
    }
}

/// No entry before `i` has the key `k`.
pub open spec fn absent_before(s: Seq<(String, NBT)>, k: Seq<char>, i: int) -> bool {
    forall|j: int| 0 <= j < i ==> (#[trigger] s[j]).0@ != k
}

proof fn lemma_absent(s: Seq<(String, NBT)>, k: Seq<char>)
    requires
        absent_before(s, k, s.len() as int),
    ensures
        !map_of(s).contains_key(k),
    decreases s.len(),
{
    if s.len() > 0 {
        let t = s.subrange(1, s.len() as int);
        assert forall|j: int| 0 <= j < t.len() implies (#[trigger] t[j]).0@ != k by {
            assert(t[j] == s[j + 1]);
        }
        lemma_absent(t, k);
        assert(s[0].0@ != k);
    }
}

proof fn lemma_first(s: Seq<(String, NBT)>, k: Seq<char>, i: int)
    requires
        0 <= i < s.len(),
        s[i].0@ == k,
        absent_before(s, k, i),
    ensures
        map_of(s).contains_key(k),
        map_of(s)[k] == s[i].1,
    decreases i,
{
    if i > 0 {
        let t = s.subrange(1, s.len() as int);
        assert forall|j: int| 0 <= j < i - 1 implies (#[trigger] t[j]).0@ != k by {
            assert(t[j] == s[j + 1]);
        }
        assert(t[i - 1] == s[i]);
        lemma_first(t, k, i - 1);
        assert(s[0].0@ != k);
    }
}

proof fn lemma_push(s: Seq<(String, NBT)>, e: (String, NBT))
    requires
        absent_before(s, e.0@, s.len() as int),
    ensures
        map_of(s.push(e)) == map_of(s).insert(e.0@, e.1),
    decreases s.len(),
{
    let p = s.push(e);
    if s.len() == 0 {
        assert(p.subrange(1, p.len() as int) =~= Seq::<(String, NBT)>::empty());
        assert(p[0] == e);
        assert(map_of(p.subrange(1, p.len() as int)) == Map::<Seq<char>, NBT>::empty());
        assert(map_of(s) == Map::<Seq<char>, NBT>::empty());
        assert(map_of(p) =~= map_of(s).insert(e.0@, e.1));
    } else {
        let t = s.subrange(1, s.len() as int);
        assert forall|j: int| 0 <= j < t.len() implies (#[trigger] t[j]).0@ != e.0@ by {
            assert(t[j] == s[j + 1]);
        }
        lemma_push(t, e);
        assert(p.subrange(1, p.len() as int) =~= t.push(e));
        assert(s[0].0@ != e.0@);
        assert(map_of(p) =~= map_of(s).insert(e.0@, e.1));
    }
}

proof fn lemma_replace(s: Seq<(String, NBT)>, i: int, v: NBT)
    requires
        0 <= i < s.len(),
        absent_before(s, s[i].0@, i),
    ensures
        map_of(s.update(i, (s[i].0, v))) == map_of(s).insert(s[i].0@, v),
    decreases i,
{
    let k = s[i].0@;
    let u = s.update(i, (s[i].0, v));
    let t = s.subrange(1, s.len() as int);
    if i == 0 {
        assert(u.subrange(1, u.len() as int) =~= t);
        assert(map_of(u) =~= map_of(s).insert(k, v));
    } else {
        assert forall|j: int| 0 <= j < i - 1 implies (#[trigger] t[j]).0@ != k by {
            assert(t[j] == s[j + 1]);
        }
        assert(t[i - 1] == s[i]);
        lemma_replace(t, i - 1, v);
        assert(u.subrange(1, u.len() as int) =~= t.update(i - 1, (s[i].0, v)));
        assert(s[0].0@ != k);
        assert(map_of(u) =~= map_of(s).insert(k, v));
    }
}

/// No two entries share a key.
pub open spec fn keys_unique(s: Seq<(String, NBT)>) -> bool {
    forall|i: int, j: int| 0 <= i < s.len() && 0 <= j < s.len() && i != j ==> (#[trigger] s[i]).0@
        != (#[trigger] s[j]).0@
}

proof fn lemma_len(s: Seq<(String, NBT)>)
    requires
        keys_unique(s),
    ensures
        map_of(s).dom().finite(),
        map_of(s).len() == s.len(),
    decreases s.len(),
{
    if s.len() > 0 {
        let t = s.subrange(1, s.len() as int);
        assert forall|i: int, j: int| 0 <= i < t.len() && 0 <= j < t.len() && i != j implies (
        #[trigger] t[i]).0@ != (#[trigger] t[j]).0@ by {
            assert(t[i] == s[i + 1] && t[j] == s[j + 1]);
        }
        lemma_len(t);
        assert forall|j: int| 0 <= j < t.len() implies (#[trigger] t[j]).0@ != s[0].0@ by {
            assert(t[j] == s[j + 1]);
        }
        lemma_absent(t, s[0].0@);
    }
}

/// A mapping from text keys to tagged values; putting at a key that is
/// already present replaces its value.
#[derive(Debug, PartialEq)]
pub struct Compound {
    entries: Vec<(String, NBT)>,
}


impl View for Compound {
    type V = Map<Seq<char>, NBT>;

    closed spec fn view(&self) -> Map<Seq<char>, NBT> {
        map_of(self.entries@)
    }
}

impl Compound {
    /// No two entries share a key, so that each entry stands for one key.
    pub closed spec fn wf(&self) -> bool {
        keys_unique(self.entries@)
    }

    /// The position of the first entry with key `k`, if any.
    fn find(&self, k: &String) -> (r: Option<usize>)
        ensures
            r is None ==> absent_before(self.entries@, k@, self.entries@.len() as int),
            r matches Some(i) ==> i < self.entries@.len() && self.entries@[i as int].0@ == k@
                && absent_before(self.entries@, k@, i as int),
    {
        let mut i: usize = 0;
        while i < self.entries.len()
            invariant
                i <= self.entries@.len(),
                absent_before(self.entries@, k@, i as int),
            decreases self.entries@.len() - i,
        {
            if self.entries[i].0 == *k {
                return Some(i);
            }
            i = i + 1;
        }
        None
    }

    /// Creates an empty compound.
    pub fn new() -> (r: Compound)
        ensures
            r@ == Map::<Seq<char>, NBT>::empty(),
            r.wf(),
    {
        Compound { entries: Vec::new() }
    }

    /// Returns the number of keys.
    pub fn len(&self) -> (r: usize)
        requires
            self.wf(),
        ensures
            r == self@.len(),
    {
        proof {
            lemma_len(self.entries@);
        }
        self.entries.len()
    }

    /// Returns whether the compound holds no key.
    pub fn is_empty(&self) -> (r: bool)
        requires
            self.wf(),
        ensures
            r == (self@.len() == 0),
    {
        self.len() == 0
    }

    /// Borrows the value at `key`, or `None` where the key is absent.
    pub fn get(&self, key: &str) -> (r: Option<&NBT>)
        ensures
            r is None <==> !self@.contains_key(key@),
            r matches Some(v) ==> *v == self@[key@],
    {
        let k = key.to_owned();
        match self.find(&k) {
            Some(i) => {
                proof {
                    lemma_first(self.entries@, k@, i as int);
                }
                Some(&self.entries[i].1)
            },
            None => {
                proof {
                    lemma_absent(self.entries@, k@);
                }
                None
            },
        }
    }

    /// Mutably borrows the value at `key`, or `None` where the key is absent.
    pub fn get_mut(&mut self, key: &str) -> (r: Option<&mut NBT>)
        ensures
            r is None <==> !old(self)@.contains_key(key@),
            r is None ==> final(self)@ == old(self)@,
            r matches Some(v) ==> *v == old(self)@[key@] && final(self)@ == old(self)@.insert(
                key@,
                *final(v),
            ),
            old(self).wf() ==> final(self).wf(),
    {
        let k = key.to_owned();
        match self.find(&k) {
            Some(i) => {
                proof {
                    lemma_first(self.entries@, k@, i as int);
                }
                let v = &mut self.entries[i].1;
                proof {
                    lemma_replace(old(self).entries@, i as int, *final(v));
                }
                Some(v)
            },
            None => {
                proof {
                    lemma_absent(self.entries@, k@);
                }
                None
            },
        }
    }

    /// Puts `nbt` at `key`, replacing any value that was there.
    pub fn put(&mut self, key: &str, nbt: NBT)
        ensures
            final(self)@ == old(self)@.insert(key@, nbt),
            old(self).wf() ==> final(self).wf(),
    {
        let k = key.to_owned();
        match self.find(&k) {
            Some(i) => {
                proof {
                    lemma_replace(self.entries@, i as int, nbt);
                }
                self.entries[i].1 = nbt;
            },
            None => {
                proof {
                    lemma_push(self.entries@, (k, nbt));
                }
                self.entries.push((k, nbt));
                proof {
                    assert(self.entries@ == old(self).entries@.push((k, nbt)));
                    assert forall|a: int, b: int|
                        0 <= a < self.entries@.len() && 0 <= b < self.entries@.len() && a != b
                            && old(self).wf() implies (#[trigger] self.entries@[a]).0@ != (
                    #[trigger] self.entries@[b]).0@ by {
                        if a < old(self).entries@.len() {
                            assert(self.entries@[a] == old(self).entries@[a]);
                        }
                        if b < old(self).entries@.len() {
                            assert(self.entries@[b] == old(self).entries@[b]);
                        }
                    }
                }
            },
        }
    }
}

/// The last put at a key wins: after putting `v1` and then `v2` at `key`, the
/// key holds `v2`, and every other key holds what it held before.
pub proof fn last_put_wins(c: Compound, key: Seq<char>, v1: NBT, v2: NBT, other: Seq<char>)
    ensures
        c@.insert(key, v1).insert(key, v2).contains_key(key),
        c@.insert(key, v1).insert(key, v2)[key] == v2,
        other != key ==> (c@.insert(key, v1).insert(key, v2).contains_key(other)
            <==> c@.contains_key(other)),
        other != key && c@.contains_key(other) ==> c@.insert(key, v1).insert(key, v2)[other]
            == c@[other],
{
}

} // verus!
