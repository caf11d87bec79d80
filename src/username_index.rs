//! A secondary index from username bytes to the account holding that name.
use vstd::prelude::*;

verus! {

/// Whether two byte strings are equal.
pub fn bytes_eq(a: &Vec<u8>, b: &Vec<u8>) -> (r: bool)
    ensures
        r == (a@ == b@),
{
    if a.len() != b.len() {
        return false;
    }
    let mut i: usize = 0;
    while i < a.len()
        invariant
            a@.len() == b@.len(),
            0 <= i <= a@.len(),
            forall|j: int| 0 <= j < i ==> a@[j] == b@[j],
        decreases a@.len() - i,
    {
        if a[i] != b[i] {
            return false;
        }
        i = i + 1;
    }
    assert(a@ =~= b@);
    true
}

/// A copy of `v` with the same bytes.
pub fn copy_bytes(v: &Vec<u8>) -> (r: Vec<u8>)
    ensures
        r@ == v@,
{
    let mut r: Vec<u8> = Vec::new();
    let mut i: usize = 0;
    while i < v.len()
        invariant
            0 <= i <= v@.len(),
            r@ == v@.subrange(0, i as int),
        decreases v@.len() - i,
    {
        r.push(v[i]);
        i = i + 1;
        assert(r@ =~= v@.subrange(0, i as int));
    }
    assert(r@ =~= v@);
    r
}

/// Username-to-account pairs, at most one per username.
pub struct UsernameIndex {
    entries: Vec<(Vec<u8>, u64)>,
    map: Ghost<Map<Seq<u8>, u64>>,
}

impl View for UsernameIndex {
    type V = Map<Seq<u8>, u64>;

    closed spec fn view(&self) -> Map<Seq<u8>, u64> {
        self.map@
    }
}

impl UsernameIndex {
    /// The entries hold exactly the pairs of the view, each username once.
    pub closed spec fn wf(&self) -> bool {
        &&& forall|i: int|
            0 <= i < self.entries@.len() ==> #[trigger] self.map@.contains_key(
                self.entries@[i].0@,
            ) && self.map@[self.entries@[i].0@] == self.entries@[i].1
        &&& forall|k: Seq<u8>|
            #[trigger] self.map@.contains_key(k) ==> exists|i: int|
                0 <= i < self.entries@.len() && #[trigger] self.entries@[i].0@ == k
        &&& forall|i: int, j: int|
            0 <= i < j < self.entries@.len() ==> self.entries@[i].0@ != self.entries@[j].0@
    }

    /// An empty index.
    pub fn new() -> (r: Self)
        ensures
            r.wf(),
            r@ == Map::<Seq<u8>, u64>::empty(),
    {
        UsernameIndex { entries: Vec::new(), map: Ghost(Map::empty()) }
    }

    /// The position of `name` among the entries, if it is there.
    fn find(&self, name: &Vec<u8>) -> (r: Option<usize>)
        requires
            self.wf(),
        ensures
            match r {
                Some(i) => i < self.entries@.len() && self.entries@[i as int].0@ == name@,
                None => !self@.contains_key(name@),
            },
    {
        let mut i: usize = 0;
        while i < self.entries.len()
            invariant
                self.wf(),
                0 <= i <= self.entries@.len(),
                forall|j: int| 0 <= j < i ==> self.entries@[j].0@ != name@,
            decreases self.entries@.len() - i,
        {
            if bytes_eq(&self.entries[i].0, name) {
                return Some(i);
            }
            i = i + 1;
        }
        None
    }

    /// The account that holds `name`, if any.
    pub fn get(&self, name: &Vec<u8>) -> (r: Option<u64>)
        requires
            self.wf(),
        ensures
            r == (if self@.contains_key(name@) {
                Some(self@[name@])
            } else {
                None::<u64>
            }),
    {
        match self.find(name) {
            Some(i) => Some(self.entries[i].1),
            None => None,
        }
    }

    /// Drops the entry for `name`, if there is one.
    pub fn remove(&mut self, name: &Vec<u8>)
        requires
            old(self).wf(),
        ensures
            final(self).wf(),
            final(self)@ == old(self)@.remove(name@),
    {
        match self.find(name) {
            None => {
                assert(self.map@ =~= self.map@.remove(name@));
            },
            Some(i) => {
                let ghost old_entries = self.entries@;
                let ghost old_map = self.map@;
                self.entries.remove(i);
                self.map = Ghost(old_map.remove(name@));
                assert forall|j: int| 0 <= j < self.entries@.len() implies #[trigger] self.map@.contains_key(
                    self.entries@[j].0@,
                ) && self.map@[self.entries@[j].0@] == self.entries@[j].1 by {
                    if j < i {
                        assert(self.entries@[j] == old_entries[j]);
                    } else {
                        assert(self.entries@[j] == old_entries[j + 1]);
                    }
                }
                assert forall|k: Seq<u8>| #[trigger] self.map@.contains_key(k) implies exists|j: int|
                    0 <= j < self.entries@.len() && #[trigger] self.entries@[j].0@ == k by {
                    let j = choose|j: int| 0 <= j < old_entries.len() && #[trigger] old_entries[j].0@ == k;
                    if j < i {
                        assert(self.entries@[j] == old_entries[j]);
                    } else {
                        assert(j != i);
                        assert(self.entries@[j - 1] == old_entries[j]);
                    }
                }
                assert forall|a: int, b: int| 0 <= a < b < self.entries@.len() implies self.entries@[a].0@
                    != self.entries@[b].0@ by {
                    let oa = if a < i { a } else { a + 1 };
                    let ob = if b < i { b } else { b + 1 };
                    assert(self.entries@[a] == old_entries[oa]);
                    assert(self.entries@[b] == old_entries[ob]);
                }
            },
        }
    }

    /// Binds `name` to `who`, replacing any earlier holder of `name`.
    pub fn insert(&mut self, name: Vec<u8>, who: u64)
        requires
            old(self).wf(),
        ensures
            final(self).wf(),
            final(self)@ == old(self)@.insert(name@, who),
    {
        let ghost old_entries = self.entries@;
        let ghost old_map = self.map@;
        let ghost key = name@;
        match self.find(&name) {
            Some(i) => {
                self.entries.set(i, (name, who));
                self.map = Ghost(old_map.insert(key, who));
                assert forall|j: int| 0 <= j < self.entries@.len() implies #[trigger] self.map@.contains_key(
                    self.entries@[j].0@,
                ) && self.map@[self.entries@[j].0@] == self.entries@[j].1 by {
                    if j != i {
                        assert(self.entries@[j] == old_entries[j]);
                        assert(old_entries[j].0@ != key) by {
                            if j < i {
                            } else {
                            }
                        }
                    }
                }
                assert forall|k: Seq<u8>| #[trigger] self.map@.contains_key(k) implies exists|j: int|
                    0 <= j < self.entries@.len() && #[trigger] self.entries@[j].0@ == k by {
                    if k == key {
                        assert(self.entries@[i as int].0@ == k);
                    } else {
                        let j = choose|j: int| 0 <= j < old_entries.len() && #[trigger] old_entries[j].0@ == k;
                        assert(self.entries@[j] == old_entries[j]);
                    }
                }
            },
            None => {
                self.entries.push((name, who));
                self.map = Ghost(old_map.insert(key, who));
                assert forall|j: int| 0 <= j < self.entries@.len() implies #[trigger] self.map@.contains_key(
                    self.entries@[j].0@,
                ) && self.map@[self.entries@[j].0@] == self.entries@[j].1 by {
                    if j < old_entries.len() {
                        assert(self.entries@[j] == old_entries[j]);
                        assert(old_map.contains_key(old_entries[j].0@));
                    }
                }
                assert forall|k: Seq<u8>| #[trigger] self.map@.contains_key(k) implies exists|j: int|
                    0 <= j < self.entries@.len() && #[trigger] self.entries@[j].0@ == k by {
                    if k == key {
                        assert(self.entries@[old_entries.len() as int].0@ == k);
                    } else {
                        let j = choose|j: int| 0 <= j < old_entries.len() && #[trigger] old_entries[j].0@ == k;
                        assert(self.entries@[j] == old_entries[j]);
                    }
                }
                assert forall|a: int, b: int| 0 <= a < b < self.entries@.len() implies self.entries@[a].0@
                    != self.entries@[b].0@ by {
                    assert(self.entries@[a] == old_entries[a]);
                    if b == old_entries.len() {
                        assert(old_map.contains_key(old_entries[a].0@));
                    } else {
                        assert(self.entries@[b] == old_entries[b]);
                    }
                }
            },
        }
    }
}

} // verus!
