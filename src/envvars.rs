use vstd::prelude::*;

verus! {

/// The view of one recorded variable: its name, and its value where it was set.
pub type EnvEntry = (Seq<char>, Option<Seq<char>>);

/// The mapping that a list of recorded variables stands for, a later entry of a name
/// replacing an earlier one.
pub open spec fn entries_map(s: Seq<EnvEntry>) -> Map<Seq<char>, Option<Seq<char>>>
    decreases s.len(),
{
    if s.len() == 0 {
        Map::empty()
    } else {
        entries_map(s.drop_last()).insert(s.last().0, s.last().1)
    }
}

/// No name is recorded twice.
pub open spec fn names_unique(s: Seq<EnvEntry>) -> bool {
    forall|i: int, j: int| 0 <= i < j < s.len() ==> s[i].0 != s[j].0
}

/// Replacing the value of a recorded name changes the mapping at that name only.
proof fn lemma_entries_map_update(s: Seq<EnvEntry>, i: int, v: Option<Seq<char>>)
    requires
        names_unique(s),
        0 <= i < s.len(),
    ensures
        entries_map(s.update(i, (s[i].0, v))) == entries_map(s).insert(s[i].0, v),
    decreases s.len(),
{
    let t = s.update(i, (s[i].0, v));
    if i == s.len() - 1 {
        assert(t.drop_last() =~= s.drop_last());
        assert(entries_map(t) =~= entries_map(s).insert(s[i].0, v));
    } else {
        assert(t.drop_last() =~= s.drop_last().update(i, (s[i].0, v)));
        lemma_entries_map_update(s.drop_last(), i, v);
        assert(s[i].0 != s.last().0);
        assert(entries_map(t) =~= entries_map(s).insert(s[i].0, v));
    }
}

/// The environment variables that a caller asked to record, each name with its
/// value, or `None` where it was not set.
#[derive(Debug)]
pub struct EnvVars {
    entries: Vec<(String, Option<String>)>,
}

impl EnvVars {
    #[verifier::type_invariant]
    spec fn names_unique_inv(&self) -> bool {
        names_unique(self.entries.deep_view())
    }

    /// The recorded variables in the order their names were first recorded.
    pub closed spec fn entry_seq(&self) -> Seq<EnvEntry> {
        self.entries.deep_view()
    }

    /// No variables recorded.
    pub fn new() -> (r: Self)
        ensures
            r@ == Map::<Seq<char>, Option<Seq<char>>>::empty(),
            r.entry_seq().len() == 0,
    {
        let r = EnvVars { entries: Vec::new() };
        assert(r.entry_seq() =~= Seq::<EnvEntry>::empty());
        r
    }

    /// Records `name` with `value`, replacing an earlier value of the same name.
    #[verifier::loop_isolation(false)]
    pub fn insert(self, name: String, value: Option<String>) -> (r: Self)
        ensures
            r@ == self@.insert(name@, value.deep_view()),
            names_unique(r.entry_seq()),
            (exists|i: int|
                0 <= i < self.entry_seq().len() && self.entry_seq()[i].0 == name@
                    && r.entry_seq() == self.entry_seq().update(i, (name@, value.deep_view())))
                || ((forall|i: int|
                0 <= i < self.entry_seq().len() ==> self.entry_seq()[i].0 != name@)
                && r.entry_seq() == self.entry_seq().push((name@, value.deep_view()))),
    {
        proof {
            use_type_invariant(&self);
        }
        let ghost before = self@;
        let ghost key = name@;
        let ghost v = value.deep_view();
        let EnvVars { entries } = self;
        let mut entries = entries;
        let ghost s = entries.deep_view();
        let mut i: usize = 0;
        while i < entries.len()
            invariant
                i <= entries.len(),
                entries.deep_view() == s,
                names_unique(s),
                forall|j: int| 0 <= j < i ==> s[j].0 != name@,
            decreases entries.len() - i,
        {
            assert(s[i as int].0 == entries@[i as int].0@);
            if entries[i].0.eq(&name) {
                entries.set(i, (name, value));
                proof {
                    assert(entries.deep_view() =~= s.update(i as int, (s[i as int].0, v)));
                    lemma_entries_map_update(s, i as int, v);
                    assert forall|a: int, b: int| 0 <= a < b < entries.deep_view().len() implies
                        entries.deep_view()[a].0 != entries.deep_view()[b].0 by {
                        assert(entries.deep_view()[a].0 == s[a].0);
                        assert(entries.deep_view()[b].0 == s[b].0);
                    }
                }
                let r = EnvVars { entries };
                assert(s[i as int].0 == key);
                assert(r@ == before.insert(key, v));
                assert(r.entry_seq() == s.update(i as int, (key, v)));
                return r;
            }
            i = i + 1;
        }
        let ghost e = (key, v);
        entries.push((name, value));
        proof {
            assert(entries.deep_view() =~= s.push(e));
            assert(s.push(e).drop_last() =~= s);
            assert(entries_map(s.push(e)) == entries_map(s).insert(key, v));
            assert forall|a: int, b: int| 0 <= a < b < s.push(e).len() implies s.push(e)[a].0
                != s.push(e)[b].0 by {
                if b < s.len() {
                    assert(s.push(e)[a] == s[a] && s.push(e)[b] == s[b]);
                } else {
                    assert(s.push(e)[a] == s[a]);
                }
            }
        }
        EnvVars { entries }
    }

    /// The recorded variables, each name once, in the order the names were first
    /// recorded.
    pub fn entries(&self) -> (r: &Vec<(String, Option<String>)>)
        ensures
            r.deep_view() == self.entry_seq(),
            names_unique(self.entry_seq()),
    {
        proof {
            use_type_invariant(self);
        }
        &self.entries
    }

    /// The value recorded for `name`: `None` where the name was not recorded,
    /// `Some(None)` where it was recorded as unset.
    #[verifier::loop_isolation(false)]
    pub fn get(&self, name: &str) -> (r: Option<Option<String>>)
        ensures
            r.deep_view() == (if self@.contains_key(name@) {
                Some(self@[name@])
            } else {
                None
            }),
    {
        proof {
            use_type_invariant(self);
            lemma_entries_map_lookup(self.entry_seq(), name@);
        }
        let ghost s = self.entry_seq();
        let key = name.to_owned();
        let mut i: usize = 0;
        while i < self.entries.len()
            invariant
                i <= self.entries.len(),
                s == self.entries.deep_view(),
                forall|j: int| 0 <= j < i ==> s[j].0 != name@,
            decreases self.entries.len() - i,
        {
            assert(s[i as int].0 == self.entries@[i as int].0@);
            if self.entries[i].0.eq(&key) {
                let v = match &self.entries[i].1 {
                    Some(v) => Some(v.clone()),
                    None => None,
                };
                assert(s[i as int].0 == name@);
                assert(v.deep_view() == s[i as int].1);
                assert(self@[name@] == s[i as int].1);
                return Some(v);
            }
            i = i + 1;
        }
        assert(!self@.contains_key(name@));
        None
    }
}

/// A name is in the mapping exactly where some entry records it, and a name that
/// only one entry records maps to that entry's value.
proof fn lemma_entries_map_lookup(s: Seq<EnvEntry>, k: Seq<char>)
    requires
        names_unique(s),
    ensures
        entries_map(s).contains_key(k) <==> exists|i: int| 0 <= i < s.len() && s[i].0 == k,
        forall|i: int| 0 <= i < s.len() && s[i].0 == k ==> entries_map(s)[k] == s[i].1,
    decreases s.len(),
{
    if s.len() > 0 {
        let d = s.drop_last();
        assert(names_unique(d));
        lemma_entries_map_lookup(d, k);
        if entries_map(s).contains_key(k) && k != s.last().0 {
            let i = choose|i: int| 0 <= i < d.len() && d[i].0 == k;
            assert(s[i].0 == k);
        }
        if exists|i: int| 0 <= i < s.len() && s[i].0 == k {
            let i = choose|i: int| 0 <= i < s.len() && s[i].0 == k;
            if i < s.len() - 1 {
                assert(d[i].0 == k);
            }
        }
        assert forall|i: int| 0 <= i < s.len() && s[i].0 == k implies entries_map(s)[k]
            == s[i].1 by {
            if i < s.len() - 1 {
                assert(d[i] == s[i]);
                assert(s[i].0 != s.last().0);
            }
        }
    }
}

impl Clone for EnvVars {
    /// A copy with the same entries in the same order.
    fn clone(&self) -> (r: Self)
        ensures
            r.entry_seq() == self.entry_seq(),
    {
        proof {
            use_type_invariant(self);
        }
        let mut entries: Vec<(String, Option<String>)> = Vec::new();
        let mut i: usize = 0;
        while i < self.entries.len()
            invariant
                i <= self.entries.len(),
                entries.deep_view() == self.entries.deep_view().take(i as int),
            decreases self.entries.len() - i,
        {
            let value = match &self.entries[i].1 {
                Some(v) => Some(v.clone()),
                None => None,
            };
            assert(value.deep_view() == self.entries@[i as int].1.deep_view());
            let name = self.entries[i].0.clone();
            assert(name@ == self.entries@[i as int].0@);
            assert(entries@.len() == entries.deep_view().len());
            entries.push((name, value));
            assert(entries@[i as int].deep_view() == self.entries@[i as int].deep_view());
            assert(entries.deep_view() =~= self.entries.deep_view().take(i + 1));
            i = i + 1;
        }
        assert(entries.deep_view() =~= self.entries.deep_view());
        EnvVars { entries }
    }
}

impl View for EnvVars {
    type V = Map<Seq<char>, Option<Seq<char>>>;

    open spec fn view(&self) -> Map<Seq<char>, Option<Seq<char>>> {
        entries_map(self.entry_seq())
    }
}

} // verus!
