//! A map keyed by strings, kept as a list of entries where a later entry
//! for a key overrides an earlier one.

use vstd::prelude::*;

verus! {

/// The map that a list of entries denotes: later entries win.
pub open spec fn entries_map<V: View>(s: Seq<(String, V)>) -> Map<Seq<char>, V::V>
    decreases s.len(),
{
    if s.len() == 0 {
        Map::empty()
    } else {
        entries_map(s.drop_last()).insert(s.last().0@, s.last().1@)
    }
}

/// A value that can be duplicated with an equal view.
pub trait ViewClone: View + Sized {
    fn view_clone(&self) -> (r: Self)
        ensures
            r@ == self@,
    ;
}

impl ViewClone for String {
    fn view_clone(&self) -> (r: Self) {
        self.clone()
    }
}

impl ViewClone for usize {
    fn view_clone(&self) -> (r: Self) {
        *self
    }
}

/// A string-keyed map.
#[derive(Debug)]
pub struct StrMap<V: View> {
    entries: Vec<(String, V)>,
}

impl<V: View> View for StrMap<V> {
    type V = Map<Seq<char>, V::V>;

    closed spec fn view(&self) -> Map<Seq<char>, V::V> {
        entries_map(self.entries@)
    }
}

/// The domain of an entry list is finite and holds exactly its keys.
pub proof fn lemma_entries_map_dom<V: View>(s: Seq<(String, V)>)
    ensures
        entries_map(s).dom().finite(),
        forall|k: Seq<char>| #[trigger]
            entries_map(s).dom().contains(k) <==> exists|i: int| 0 <= i < s.len() && s[i].0@ == k,
        s.len() == 0 <==> entries_map(s).dom().len() == 0,
    decreases s.len(),
{
    if s.len() > 0 {
        lemma_entries_map_dom(s.drop_last());
        let m = entries_map(s);
        assert(m.dom().contains(s.last().0@));
        assert forall|k: Seq<char>| #[trigger]
            m.dom().contains(k) <==> exists|i: int| 0 <= i < s.len() && s[i].0@ == k by {
            if m.dom().contains(k) && k != s.last().0@ {
                let i = choose|i: int| 0 <= i < s.drop_last().len() && s.drop_last()[i].0@ == k;
                assert(s[i] == s.drop_last()[i]);
            }
            if exists|i: int| 0 <= i < s.len() && s[i].0@ == k {
                let i = choose|i: int| 0 <= i < s.len() && s[i].0@ == k;
                if i < s.len() - 1 {
                    assert(s.drop_last()[i] == s[i]);
                }
            }
        }
    }
}

impl<V: ViewClone> Clone for StrMap<V> {
    /// A copy with an equal view.
    fn clone(&self) -> (r: Self)
        ensures
            r@ == self@,
    {
        let mut out: Vec<(String, V)> = Vec::new();
        let mut i: usize = 0;
        while i < self.entries.len()
            invariant
                i <= self.entries@.len(),
                entries_map(out@) == entries_map(self.entries@.subrange(0, i as int)),
            decreases self.entries@.len() - i,
        {
            let k = self.entries[i].0.clone();
            let v = self.entries[i].1.view_clone();
            let ghost pre = out@;
            out.push((k, v));
            assert(out@.drop_last() == pre);
            assert(self.entries@.subrange(0, i + 1).drop_last() == self.entries@.subrange(
                0,
                i as int,
            ));
            i = i + 1;
        }
        assert(self.entries@.subrange(0, self.entries@.len() as int) == self.entries@);
        StrMap { entries: out }
    }
}

impl<V: View> StrMap<V> {
    /// The entries, in insertion order.
    pub closed spec fn spec_entries(&self) -> Seq<(String, V)> {
        self.entries@
    }

    /// The view is the map of the entries.
    pub proof fn lemma_view(&self)
        ensures
            self@ == entries_map(self.spec_entries()),
    {
    }

    /// An empty map.
    pub fn new() -> (m: Self)
        ensures
            m@ == Map::<Seq<char>, V::V>::empty(),
            m.spec_entries().len() == 0,
    {
        StrMap { entries: Vec::new() }
    }

    /// Sets `key` to `value`.
    pub fn insert(&mut self, key: String, value: V)
        ensures
            final(self)@ == old(self)@.insert(key@, value@),
            final(self).spec_entries() == old(self).spec_entries().push((key, value)),
    {
        self.entries.push((key, value));
        proof {
            assert(self.entries@.drop_last() == old(self).entries@);
        }
    }

    /// The entries, in insertion order.
    pub fn entries(&self) -> (r: &Vec<(String, V)>)
        ensures
            r@ == self.spec_entries(),
    {
        &self.entries
    }

    /// The value for `key`, if any.
    pub fn get(&self, key: &str) -> (r: Option<&V>)
        ensures
            match r {
                Some(v) => self@.contains_key(key@) && self@[key@] == v@,
                None => !self@.contains_key(key@),
            },
    {
        let k = crate::text::chars_of(key);
        let mut n = self.entries.len();
        assert(self.entries@.subrange(0, n as int) == self.entries@);
        while n > 0
            invariant
                n <= self.entries@.len(),
                k@ == key@,
                forall|j: int| n <= j < self.entries@.len() ==> self.entries@[j].0@ != key@,
                entries_map(self.entries@).contains_key(key@) <==> entries_map(
                    self.entries@.subrange(0, n as int),
                ).contains_key(key@),
                entries_map(self.entries@).contains_key(key@) ==> entries_map(self.entries@)[key@]
                    == entries_map(self.entries@.subrange(0, n as int))[key@],
            decreases n,
        {
            let ek = crate::text::chars_of(self.entries[n - 1].0.as_str());
            let ghost pre = self.entries@.subrange(0, n as int);
            assert(pre.drop_last() == self.entries@.subrange(0, n - 1));
            if crate::text::chars_eq(ek.as_slice(), k.as_slice()) {
                return Some(&self.entries[n - 1].1);
            }
            n = n - 1;
        }
        assert(self.entries@.subrange(0, 0) =~= Seq::<(String, V)>::empty());
        None
    }

    /// A map holding the entries of `entries`, in order.
    pub fn from_entries(entries: Vec<(String, V)>) -> (m: Self)
        ensures
            m.spec_entries() == entries@,
            m@ == entries_map(entries@),
    {
        StrMap { entries }
    }

    /// Whether `key` has a value.
    pub fn contains_key(&self, key: &str) -> (r: bool)
        ensures
            r == self@.contains_key(key@),
    {
        self.get(key).is_some()
    }

    /// Whether the map is empty.
    pub fn is_empty(&self) -> (r: bool)
        ensures
            r == (self@.dom().len() == 0),
    {
        proof {
            lemma_entries_map_dom(self.entries@);
        }
        self.entries.len() == 0
    }
}

} // verus!
