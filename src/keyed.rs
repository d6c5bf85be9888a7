use vstd::prelude::*;

verus! {

/// The position of the first entry with key `k`, or -1 if there is none.
pub open spec fn key_index<V>(s: Seq<(Seq<char>, V)>, k: Seq<char>) -> int
    decreases s.len(),
{
    if s.len() == 0 {
        -1
    } else if s[0].0 == k {
        0
    } else if key_index(s.drop_first(), k) < 0 {
        -1
    } else {
        key_index(s.drop_first(), k) + 1
    }
}

/// The value of the first entry with key `k`.
pub open spec fn lookup<V>(s: Seq<(Seq<char>, V)>, k: Seq<char>) -> Option<V> {
    if key_index(s, k) < 0 {
        None
    } else {
        Some(s[key_index(s, k)].1)
    }
}

/// No two entries share a key.
pub open spec fn distinct_keys<V>(s: Seq<(Seq<char>, V)>) -> bool {
    forall|i: int, j: int| 0 <= i < j < s.len() ==> #[trigger] s[i].0 != #[trigger] s[j].0
}

/// `s` after `k` was associated with `v`: the first entry with key `k` gets
/// the value `v`, or a new entry goes to the end.
pub open spec fn with_entry<V>(s: Seq<(Seq<char>, V)>, k: Seq<char>, v: V) -> Seq<(Seq<char>, V)> {
    if key_index(s, k) < 0 {
        s.push((k, v))
    } else {
        s.update(key_index(s, k), (k, v))
    }
}

/// `s` without the first entry with key `k`.
pub open spec fn without_entry<V>(s: Seq<(Seq<char>, V)>, k: Seq<char>) -> Seq<(Seq<char>, V)> {
    if key_index(s, k) < 0 {
        s
    } else {
        s.remove(key_index(s, k))
    }
}

/// `key_index` is the position that a front-to-back scan stops at.
pub proof fn lemma_key_index_at<V>(s: Seq<(Seq<char>, V)>, k: Seq<char>, i: int)
    requires
        0 <= i <= s.len(),
        forall|j: int| 0 <= j < i ==> #[trigger] s[j].0 != k,
        i < s.len() ==> s[i].0 == k,
    ensures
        key_index(s, k) == if i == s.len() { -1 } else { i },
    decreases i,
{
    if i > 0 {
        let r = s.drop_first();
        assert forall|j: int| 0 <= j < i - 1 implies #[trigger] r[j].0 != k by {
            assert(r[j] == s[j + 1]);
        }
        if i < s.len() {
            assert(r[i - 1] == s[i]);
        }
        lemma_key_index_at(r, k, i - 1);
    }
}

/// What `key_index` satisfies.
pub proof fn lemma_key_index_props<V>(s: Seq<(Seq<char>, V)>, k: Seq<char>)
    ensures
        -1 <= key_index(s, k) < s.len(),
        key_index(s, k) >= 0 ==> s[key_index(s, k)].0 == k,
        key_index(s, k) < 0 ==> forall|j: int| 0 <= j < s.len() ==> #[trigger] s[j].0 != k,
    decreases s.len(),
{
    if s.len() > 0 && s[0].0 != k {
        let r = s.drop_first();
        lemma_key_index_props(r, k);
        if key_index(r, k) >= 0 {
            assert(s[key_index(s, k)] == r[key_index(r, k)]);
        } else {
            assert forall|j: int| 0 <= j < s.len() implies #[trigger] s[j].0 != k by {
                if j > 0 {
                    assert(s[j] == r[j - 1]);
                }
            }
        }
    }
}

/// Adding or removing an entry keeps the keys distinct.
pub proof fn lemma_entries_stay_distinct<V>(s: Seq<(Seq<char>, V)>, k: Seq<char>, v: V)
    requires
        distinct_keys(s),
    ensures
        distinct_keys(with_entry(s, k, v)),
        distinct_keys(without_entry(s, k)),
{
    lemma_key_index_props(s, k);
    let w = with_entry(s, k, v);
    assert forall|i: int, j: int| 0 <= i < j < w.len() implies #[trigger] w[i].0 != #[trigger] w[j].0 by {
        if key_index(s, k) >= 0 {
            if i != key_index(s, k) && j != key_index(s, k) {
                assert(w[i] == s[i] && w[j] == s[j]);
            } else if i == key_index(s, k) {
                assert(w[j] == s[j]);
            } else {
                assert(w[i] == s[i]);
            }
        } else if j == s.len() {
            assert(w[i] == s[i]);
        } else {
            assert(w[i] == s[i] && w[j] == s[j]);
        }
    }
    let d = without_entry(s, k);
    if key_index(s, k) >= 0 {
        let p = key_index(s, k);
        assert forall|i: int, j: int| 0 <= i < j < d.len() implies #[trigger] d[i].0 != #[trigger] d[j].0 by {
            let a = if i < p { i } else { i + 1 };
            let b = if j < p { j } else { j + 1 };
            assert(d[i] == s[a] && d[j] == s[b]);
        }
    }
}

/// Changing one value of the entries changes only that value of the view.
proof fn lemma_view_of_update<V>(entries: Seq<(String, V)>, i: int)
    requires
        0 <= i < entries.len(),
    ensures
        forall|x: V|
            #[trigger] view_of(entries.update(i, (entries[i].0, x))) == view_of(entries).update(
                i,
                (entries[i].0@, x),
            ),
{
    assert forall|x: V|
        #[trigger] view_of(entries.update(i, (entries[i].0, x))) == view_of(entries).update(
            i,
            (entries[i].0@, x),
        ) by {
        assert(view_of(entries.update(i, (entries[i].0, x))) =~= view_of(entries).update(
            i,
            (entries[i].0@, x),
        ));
    }
}

spec fn view_of<V>(entries: Seq<(String, V)>) -> Seq<(Seq<char>, V)> {
    entries.map_values(|e: (String, V)| (e.0@, e.1))
}

/// A list of values under string keys, in order of first insertion.
pub struct KeyedList<V> {
    entries: Vec<(String, V)>,
}

impl<V> View for KeyedList<V> {
    type V = Seq<(Seq<char>, V)>;

    closed spec fn view(&self) -> Seq<(Seq<char>, V)> {
        view_of(self.entries@)
    }
}

impl<V> KeyedList<V> {
    /// An empty list.
    pub fn new() -> (r: Self)
        ensures
            r@ == Seq::<(Seq<char>, V)>::empty(),
    {
        let r = KeyedList { entries: Vec::new() };
        assert(r@ =~= Seq::<(Seq<char>, V)>::empty());
        r
    }

    pub fn len(&self) -> (r: usize)
        ensures
            r == self@.len(),
    {
        self.entries.len()
    }

    pub fn is_empty(&self) -> (r: bool)
        ensures
            r == (self@.len() == 0),
    {
        self.entries.len() == 0
    }

    /// The position of the first entry with key `k`.
    pub fn find(&self, k: &String) -> (r: Option<usize>)
        ensures
            match r {
                Some(i) => i as int == key_index(self@, k@),
                None => key_index(self@, k@) < 0,
            },
    {
        let mut i: usize = 0;
        while i < self.entries.len()
            invariant
                i <= self@.len(),
                self@.len() == self.entries@.len(),
                forall|j: int| 0 <= j < i ==> #[trigger] self@[j].0 != k@,
            decreases self@.len() - i,
        {
            assert(self@[i as int].0 == self.entries@[i as int].0@);
            if self.entries[i].0 == *k {
                proof { lemma_key_index_at(self@, k@, i as int); }
                return Some(i);
            }
            i = i + 1;
        }
        proof { lemma_key_index_at(self@, k@, i as int); }
        None
    }

    /// Associates `v` with `k`; returns the value that `k` had before.
    pub fn insert(&mut self, k: String, v: V) -> (r: Option<V>)
        ensures
            final(self)@ == with_entry(old(self)@, k@, v),
            r == lookup(old(self)@, k@),
    {
        proof { lemma_key_index_props(self@, k@); }
        match self.find(&k) {
            Some(i) => {
                let ghost kk = k@;
                let e = self.entries.remove(i);
                self.entries.insert(i, (k, v));
                assert(self@ =~= with_entry(old(self)@, kk, v));
                Some(e.1)
            },
            None => {
                let ghost kk = k@;
                self.entries.push((k, v));
                assert(self@ =~= with_entry(old(self)@, kk, v));
                None
            },
        }
    }

    /// Removes the entry of `k`; returns its value.
    pub fn remove(&mut self, k: &String) -> (r: Option<V>)
        ensures
            final(self)@ == without_entry(old(self)@, k@),
            r == lookup(old(self)@, k@),
    {
        proof { lemma_key_index_props(self@, k@); }
        match self.find(k) {
            Some(i) => {
                let e = self.entries.remove(i);
                assert(self@ =~= without_entry(old(self)@, k@));
                Some(e.1)
            },
            None => None,
        }
    }

    /// The value of `k`.
    pub fn get(&self, k: &String) -> (r: Option<&V>)
        ensures
            match r {
                Some(v) => lookup(self@, k@) == Some(*v),
                None => lookup(self@, k@) is None,
            },
    {
        proof { lemma_key_index_props(self@, k@); }
        match self.find(k) {
            Some(i) => Some(&self.entries[i].1),
            None => None,
        }
    }

    /// The value of `k`, to be changed in place.
    pub fn get_mut(&mut self, k: &String) -> (r: Option<&mut V>)
        ensures
            match r {
                Some(v) => {
                    &&& lookup(old(self)@, k@) == Some(*v)
                    &&& final(self)@ == old(self)@.update(key_index(old(self)@, k@), (k@, *final(v)))
                },
                None => {
                    &&& lookup(old(self)@, k@) is None
                    &&& final(self)@ == old(self)@
                },
            },
    {
        proof { lemma_key_index_props(self@, k@); }
        match self.find(k) {
            Some(i) => {
                proof { lemma_view_of_update(self.entries@, i as int); }
                let v = &mut self.entries[i].1;
                Some(v)
            },
            None => None,
        }
    }

    /// The keys, in order.
    pub fn keys(&self) -> (r: Vec<String>)
        ensures
            r@.map_values(|s: String| s@) == self@.map_values(|e: (Seq<char>, V)| e.0),
    {
        let mut r: Vec<String> = Vec::new();
        let mut i: usize = 0;
        while i < self.entries.len()
            invariant
                i <= self@.len(),
                self@.len() == self.entries@.len(),
                r@.len() == i,
                forall|j: int| 0 <= j < i ==> #[trigger] r@[j]@ == self@[j].0,
            decreases self@.len() - i,
        {
            assert(self@[i as int].0 == self.entries@[i as int].0@);
            r.push(self.entries[i].0.clone());
            i = i + 1;
        }
        assert(r@.map_values(|s: String| s@) =~= self@.map_values(|e: (Seq<char>, V)| e.0));
        r
    }

    /// The values, in order.
    pub fn values(&self) -> (r: Vec<&V>)
        ensures
            r@.len() == self@.len(),
            forall|j: int| 0 <= j < r@.len() ==> *#[trigger] r@[j] == self@[j].1,
    {
        let mut r: Vec<&V> = Vec::new();
        let mut i: usize = 0;
        while i < self.entries.len()
            invariant
                i <= self@.len(),
                self@.len() == self.entries@.len(),
                r@.len() == i,
                forall|j: int| 0 <= j < i ==> *#[trigger] r@[j] == self@[j].1,
            decreases self@.len() - i,
        {
            assert(self@[i as int].1 == self.entries@[i as int].1);
            r.push(&self.entries[i].1);
            i = i + 1;
        }
        r
    }
}

} // verus!
