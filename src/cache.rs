use vstd::prelude::*;

use crate::address::WanIps;

verus! {

/// The entries of a cache, keys taken by their characters.
pub open spec fn entries_view(e: Seq<(String, WanIps)>) -> Seq<(Seq<char>, WanIps)> {
    e.map_values(|p: (String, WanIps)| (p.0@, p.1))
}

/// No key occurs twice among the entries.
pub open spec fn keys_unique(s: Seq<(Seq<char>, WanIps)>) -> bool {
    forall|i: int, j: int|
        0 <= i < s.len() && 0 <= j < s.len() && i != j ==> #[trigger] s[i].0 != #[trigger] s[j].0
}

/// The mapping that a list of entries spells, a later entry overriding an
/// earlier one with the same key.
pub open spec fn entries_map(s: Seq<(Seq<char>, WanIps)>) -> Map<Seq<char>, WanIps>
    decreases s.len(),
{
    if s.len() == 0 {
        Map::empty()
    } else {
        entries_map(s.drop_last()).insert(s.last().0, s.last().1)
    }
}

/// With unique keys, the mapping holds exactly the entries' keys, each bound
/// to its entry's address.
pub proof fn lemma_entries_map(s: Seq<(Seq<char>, WanIps)>)
    requires
        keys_unique(s),
    ensures
        forall|k: Seq<char>|
            #[trigger] entries_map(s).contains_key(k) <==> exists|i: int| 0 <= i < s.len() && s[i].0 == k,
        forall|i: int| 0 <= i < s.len() ==> #[trigger] entries_map(s)[s[i].0] == s[i].1,
    decreases s.len(),
{
    if s.len() > 0 {
        let t = s.drop_last();
        assert(keys_unique(t)) by {
            assert forall|i: int, j: int|
                0 <= i < t.len() && 0 <= j < t.len() && i != j implies #[trigger] t[i].0 != #[trigger] t[j].0 by {
                assert(t[i] == s[i] && t[j] == s[j]);
            }
        }
        lemma_entries_map(t);
        let n = s.len() - 1;
        assert(entries_map(s) == entries_map(t).insert(s[n].0, s[n].1));
        assert forall|k: Seq<char>|
            #[trigger] entries_map(s).contains_key(k) <==> exists|i: int| 0 <= i < s.len() && s[i].0 == k by {
            if entries_map(s).contains_key(k) && k != s[n].0 {
                assert(entries_map(t).contains_key(k));
                let i = choose|i: int| 0 <= i < t.len() && t[i].0 == k;
                assert(t[i] == s[i]);
            }
            if exists|i: int| 0 <= i < s.len() && s[i].0 == k {
                let i = choose|i: int| 0 <= i < s.len() && s[i].0 == k;
                if i < n {
                    assert(t[i] == s[i]);
                    assert(entries_map(t).contains_key(t[i].0));
                }
            }
        }
        assert forall|i: int| 0 <= i < s.len() implies #[trigger] entries_map(s)[s[i].0] == s[i].1 by {
            if i < n {
                assert(t[i] == s[i]);
                assert(s[i].0 != s[n].0);
            }
        }
    }
}

/// Replacing the entry at `i` by one with the same key rebinds that key.
proof fn lemma_entries_map_update(s: Seq<(Seq<char>, WanIps)>, i: int, v: WanIps)
    requires
        keys_unique(s),
        0 <= i < s.len(),
    ensures
        keys_unique(s.update(i, (s[i].0, v))),
        entries_map(s.update(i, (s[i].0, v))) == entries_map(s).insert(s[i].0, v),
{
    let k = s[i].0;
    let u = s.update(i, (k, v));
    assert(keys_unique(u)) by {
        assert forall|a: int, b: int|
            0 <= a < u.len() && 0 <= b < u.len() && a != b implies #[trigger] u[a].0 != #[trigger] u[b].0 by {
            assert(u[a].0 == s[a].0 && u[b].0 == s[b].0);
        }
    }
    lemma_entries_map(s);
    lemma_entries_map(u);
    let m = entries_map(s).insert(k, v);
    assert forall|kk: Seq<char>| #[trigger] entries_map(u).contains_key(kk) <==> m.contains_key(kk) by {
        if entries_map(u).contains_key(kk) {
            let j = choose|j: int| 0 <= j < u.len() && u[j].0 == kk;
            assert(s[j].0 == kk);
        }
        if m.contains_key(kk) && kk != k {
            let j = choose|j: int| 0 <= j < s.len() && s[j].0 == kk;
            assert(u[j].0 == kk);
        }
        if kk == k {
            assert(u[i].0 == kk);
        }
    }
    assert forall|kk: Seq<char>| #[trigger] entries_map(u).contains_key(kk) implies entries_map(u)[kk] == m[kk] by {
        let j = choose|j: int| 0 <= j < u.len() && u[j].0 == kk;
        assert(entries_map(u)[u[j].0] == u[j].1);
        if j != i {
            assert(u[j] == s[j]);
            assert(entries_map(s)[s[j].0] == s[j].1);
        }
    }
    assert(entries_map(u) =~= m);
}

/// Appending an entry under a new key keeps the keys unique.
proof fn lemma_push_unique(s: Seq<(Seq<char>, WanIps)>, k: Seq<char>, v: WanIps)
    requires
        keys_unique(s),
        forall|j: int| 0 <= j < s.len() ==> s[j].0 != k,
    ensures
        keys_unique(s.push((k, v))),
        entries_map(s.push((k, v))) == entries_map(s).insert(k, v),
{
    let u = s.push((k, v));
    assert(u.drop_last() =~= s);
    assert forall|a: int, b: int|
        0 <= a < u.len() && 0 <= b < u.len() && a != b implies #[trigger] u[a].0 != #[trigger] u[b].0 by {
        if a < s.len() && b < s.len() {
            assert(u[a] == s[a] && u[b] == s[b]);
        } else if a < s.len() {
            assert(u[a] == s[a]);
        } else {
            assert(u[b] == s[b]);
        }
    }
}

/// What was last pushed to each remote service, by cache key, together with
/// the path of the file that holds it between runs.
pub struct Cache {
    path: String,
    entries: Vec<(String, WanIps)>,
}

impl View for Cache {
    type V = Map<Seq<char>, WanIps>;

    closed spec fn view(&self) -> Map<Seq<char>, WanIps> {
        entries_map(entries_view(self.entries@))
    }
}

impl Cache {
    /// The cache holds each key once.
    pub closed spec fn wf(&self) -> bool {
        keys_unique(entries_view(self.entries@))
    }

    /// The path of the file that holds the cache.
    pub closed spec fn file_path(&self) -> Seq<char> {
        self.path@
    }

    pub fn path(&self) -> (r: &String)
        ensures
            r@ == self.file_path(),
    {
        &self.path
    }

    /// An empty cache bound to `path`; nothing is written until the first insert.
    pub fn new(path: String) -> (r: Cache)
        ensures
            r.wf(),
            r@ == Map::<Seq<char>, WanIps>::empty(),
            r.file_path() == path@,
    {
        let r = Cache { path, entries: Vec::new() };
        assert(entries_view(r.entries@) =~= Seq::<(Seq<char>, WanIps)>::empty());
        r
    }

    /// The address last recorded under `k`, if any.
    pub fn get(&self, k: String) -> (r: Option<&WanIps>)
        requires
            self.wf(),
        ensures
            r is Some <==> self@.contains_key(k@),
            r is Some ==> *r->Some_0 == self@[k@],
    {
        let ghost s = entries_view(self.entries@);
        let mut i: usize = 0;
        while i < self.entries.len()
            invariant
                s == entries_view(self.entries@),
                keys_unique(s),
                i <= self.entries.len(),
                forall|j: int| 0 <= j < i ==> s[j].0 != k@,
            decreases self.entries.len() - i,
        {
            if self.entries[i].0 == k {
                assert(s[i as int] == (self.entries@[i as int].0@, self.entries@[i as int].1));
                proof {
                    lemma_entries_map(s);
                }
                assert(entries_map(s)[s[i as int].0] == s[i as int].1);
                return Some(&self.entries[i].1);
            }
            i = i + 1;
        }
        proof {
            lemma_entries_map(s);
        }
        None
    }

    /// Records `v` under `k`, replacing what was there.
    pub fn insert(&mut self, k: String, v: WanIps)
        requires
            old(self).wf(),
        ensures
            final(self).wf(),
            final(self)@ == old(self)@.insert(k@, v),
            final(self).file_path() == old(self).file_path(),
    {
        let ghost s = entries_view(self.entries@);
        let mut i: usize = 0;
        while i < self.entries.len()
            invariant
                *self == *old(self),
                s == entries_view(self.entries@),
                keys_unique(s),
                i <= self.entries.len(),
                forall|j: int| 0 <= j < i ==> s[j].0 != k@,
            decreases self.entries.len() - i,
        {
            if self.entries[i].0 == k {
                proof {
                    lemma_entries_map_update(s, i as int, v);
                }
                self.entries.set(i, (k, v));
                assert(entries_view(self.entries@) =~= s.update(i as int, (s[i as int].0, v)));
                return;
            }
            i = i + 1;
        }
        proof {
            lemma_push_unique(s, k@, v);
        }
        self.entries.push((k, v));
        assert(entries_view(self.entries@) =~= s.push((k@, v)));
    }

    /// The entries, each key once, in the order they were first inserted.
    pub fn to_entries(&self) -> (r: Vec<(String, WanIps)>)
        requires
            self.wf(),
        ensures
            keys_unique(entries_view(r@)),
            entries_map(entries_view(r@)) == self@,
    {
        let mut r: Vec<(String, WanIps)> = Vec::new();
        let mut i: usize = 0;
        while i < self.entries.len()
            invariant
                i <= self.entries.len(),
                r@ =~= self.entries@.take(i as int),
            decreases self.entries.len() - i,
        {
            r.push((self.entries[i].0.clone(), self.entries[i].1));
            assert(r@ =~= self.entries@.take(i + 1));
            i = i + 1;
        }
        assert(self.entries@.take(i as int) =~= self.entries@);
        r
    }

    /// A cache bound to `path` that holds the given entries, a later entry
    /// overriding an earlier one with the same key.
    pub fn from_entries(path: String, entries: Vec<(String, WanIps)>) -> (r: Cache)
        ensures
            r.wf(),
            r@ == entries_map(entries_view(entries@)),
            r.file_path() == path@,
    {
        let ghost e = entries_view(entries@);
        let mut c = Cache::new(path);
        let mut i: usize = 0;
        while i < entries.len()
            invariant
                e == entries_view(entries@),
                i <= entries.len(),
                c.wf(),
                c@ == entries_map(e.take(i as int)),
                c.file_path() == path@,
            decreases entries.len() - i,
        {
            c.insert(entries[i].0.clone(), entries[i].1);
            assert(e.take(i + 1).drop_last() =~= e.take(i as int));
            i = i + 1;
        }
        assert(e.take(i as int) =~= e);
        c
    }
}

} // verus!
