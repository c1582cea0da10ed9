//! String-keyed instance-id maps: at startup each logical asset name is
//! bound once to a renderer handle; later frames look the handle up by
//! name and never re-register.

use vstd::prelude::*;

use crate::font::FontInstanceId;
use crate::texture::TextureId;

verus! {

/// First-wins lookup of a key in an entry list.
pub open spec fn map_lookup<V>(s: Seq<(String, V)>, k: Seq<char>) -> Option<V>
    decreases s.len(),
{
    if s.len() == 0 {
        None
    } else if s[0].0@ == k {
        Some(s[0].1)
    } else {
        map_lookup(s.drop_first(), k)
    }
}

/// Keys are pairwise distinct.
pub open spec fn map_keys_unique<V>(s: Seq<(String, V)>) -> bool {
    forall|i: int, j: int| 0 <= i < j < s.len() ==> #[trigger] s[i].0@ != #[trigger] s[j].0@
}

pub proof fn lemma_map_lookup_at<V>(s: Seq<(String, V)>, k: Seq<char>, i: int)
    requires
        0 <= i < s.len(),
        s[i].0@ == k,
        forall|j: int| 0 <= j < i ==> #[trigger] s[j].0@ != k,
    ensures
        map_lookup(s, k) == Some(s[i].1),
    decreases s.len(),
{
    if i > 0 {
        lemma_map_lookup_at(s.drop_first(), k, i - 1);
    }
}

pub proof fn lemma_map_lookup_absent<V>(s: Seq<(String, V)>, k: Seq<char>)
    requires
        forall|j: int| 0 <= j < s.len() ==> #[trigger] s[j].0@ != k,
    ensures
        map_lookup(s, k) is None,
    decreases s.len(),
{
    if s.len() > 0 {
        lemma_map_lookup_absent(s.drop_first(), k);
    }
}

/// Registering a handle under a fresh key makes a later lookup of that
/// key return exactly that handle — and, lookup being a function of the
/// map alone, every repetition returns the identical handle.
pub proof fn lemma_insert_then_lookup<V>(s: Seq<(String, V)>, key: Seq<char>, entry: (String, V))
    requires
        entry.0@ == key,
        map_lookup(s, key) is None,
    ensures
        map_lookup(s.push(entry), key) == Some(entry.1),
    decreases s.len(),
{
    if s.len() == 0 {
        assert(s.push(entry)[0] == entry);
    } else {
        lemma_insert_then_lookup(s.drop_first(), key, entry);
        assert(s.push(entry)[0] == s[0]);
        assert(s.push(entry).drop_first() =~= s.drop_first().push(entry));
    }
}

/// A small string-keyed map with first-registration-wins semantics,
/// populated once at startup.
pub struct StrKeyMap<V> {
    pub entries: Vec<(String, V)>,
}

impl<V> StrKeyMap<V> {
    /// All keys distinct: what `insert`'s rejection of duplicates keeps.
    pub open spec fn wf(self) -> bool {
        map_keys_unique(self.entries@)
    }

    /// The handle registered under a key.
    pub open spec fn spec_lookup(self, k: Seq<char>) -> Option<V> {
        map_lookup(self.entries@, k)
    }

    /// An empty map.
    pub fn new() -> (r: Self)
        ensures
            r.entries@ =~= Seq::<(String, V)>::empty(),
            r.wf(),
    {
        Self { entries: Vec::new() }
    }

    /// Index of the first entry with the key, if present.
    fn find_index(&self, key: &str) -> (r: Option<usize>)
        ensures
            match r {
                Some(i) => i < self.entries@.len() && self.entries@[i as int].0@ == key@
                    && forall|j: int| 0 <= j < i ==> #[trigger] self.entries@[j].0@ != key@,
                None => forall|j: int|
                    0 <= j < self.entries@.len() ==> #[trigger] self.entries@[j].0@ != key@,
            },
    {
        let key_owned: String = key.to_owned();
        let mut i: usize = 0;
        while i < self.entries.len()
            invariant
                key_owned@ == key@,
                0 <= i <= self.entries.len(),
                forall|j: int| 0 <= j < i ==> #[trigger] self.entries@[j].0@ != key@,
            decreases self.entries.len() - i,
        {
            if self.entries[i].0 == key_owned {
                return Some(i);
            }
            i = i + 1;
        }
        None
    }

    /// Binds a handle to a key. The first registration wins: a key that
    /// is already bound is left alone and `false` comes back.
    pub fn insert(&mut self, key: &str, value: V) -> (r: bool)
        requires
            old(self).wf(),
        ensures
            final(self).wf(),
            r == (old(self).spec_lookup(key@) is None),
            !r ==> final(self).entries@ == old(self).entries@,
            r ==> {
                &&& final(self).entries@.len() == old(self).entries@.len() + 1
                &&& final(self).entries@.subrange(0, old(self).entries@.len() as int) == old(
                    self,
                ).entries@
                &&& final(self).entries@.last().0@ == key@
                &&& final(self).entries@.last().1 == value
                &&& final(self).spec_lookup(key@) == Some(value)
            },
    {
        match self.find_index(key) {
            Some(i) => {
                proof {
                    lemma_map_lookup_at(self.entries@, key@, i as int);
                }
                false
            },
            None => {
                proof {
                    lemma_map_lookup_absent(self.entries@, key@);
                }
                let key_owned: String = key.to_owned();
                let ghost old_entries = self.entries@;
                self.entries.push((key_owned, value));
                proof {
                    lemma_insert_then_lookup(old_entries, key@, self.entries@.last());
                    assert(self.entries@.drop_last() =~= old_entries);
                    assert(self.entries@.subrange(0, old_entries.len() as int) =~= old_entries);
                    assert forall|i: int, j: int|
                        0 <= i < j < self.entries@.len() implies #[trigger] self.entries@[i].0@
                        != #[trigger] self.entries@[j].0@ by {
                        if j < old_entries.len() {
                            assert(self.entries@[i] == old_entries[i]);
                            assert(self.entries@[j] == old_entries[j]);
                        } else {
                            assert(self.entries@[i] == old_entries[i]);
                            assert(self.entries@[j].0@ == key@);
                        }
                    }
                }
                true
            },
        }
    }

    /// The handle bound to a key, or `None` when the key was never
    /// registered — a startup-time contract violation that the caller
    /// must treat as fatal.
    pub fn get(&self, key: &str) -> (r: Option<&V>)
        ensures
            match r {
                Some(v) => self.spec_lookup(key@) == Some(*v),
                None => self.spec_lookup(key@) is None,
            },
    {
        match self.find_index(key) {
            Some(i) => {
                proof {
                    lemma_map_lookup_at(self.entries@, key@, i as int);
                }
                Some(&self.entries[i].1)
            },
            None => {
                proof {
                    lemma_map_lookup_absent(self.entries@, key@);
                }
                None
            },
        }
    }

    /// How many keys are registered.
    pub fn len(&self) -> (r: usize)
        ensures
            r == self.entries@.len(),
    {
        self.entries.len()
    }
}

/// Maps logical font names to their font instances.
pub type FontInstanceIdMap = StrKeyMap<FontInstanceId>;

/// Maps logical texture names to their texture ids.
pub type TextureInstanceIdMap = StrKeyMap<TextureId>;

} // verus!
