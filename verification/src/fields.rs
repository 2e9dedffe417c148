//! The field set of one owner: setting keys with their values.

use vstd::prelude::*;
use vstd::std_specs::cmp::PartialEqSpecImpl;

verus! {

/// One setting as it is stored: a key and the value written for it.
#[derive(Debug)]
struct Entry {
    key: String,
    value: String,
}

/// A set of settings, each key held once.
///
/// Its view is the mapping from key to value. The order in which the entries
/// are listed is that of first insertion and carries no meaning.
#[derive(Debug)]
pub struct Fields {
    entries: Vec<Entry>,
}

/// The length of a value as it is stored: the number of bytes of its UTF-8 form.
pub open spec fn stored_len(value: Seq<char>) -> nat {
    vstd::utf8::encode_utf8(value).len()
}

/// The listing `pairs` holds each key of `fields` once, with its value, and nothing else.
pub open spec fn lists(pairs: Seq<(Seq<char>, Seq<char>)>, fields: Map<Seq<char>, Seq<char>>) -> bool {
    &&& forall|i: int|
        0 <= i < pairs.len() ==> fields.contains_key(#[trigger] pairs[i].0) && fields[pairs[i].0]
            == pairs[i].1
    &&& forall|k: Seq<char>| #[trigger]
        fields.contains_key(k) ==> exists|i: int| 0 <= i < pairs.len() && #[trigger] pairs[i].0 == k
    &&& forall|i: int, j: int|
        0 <= i < j < pairs.len() ==> #[trigger] pairs[i].0 != #[trigger] pairs[j].0
    &&& fields.dom().finite()
    &&& fields.dom().len() == pairs.len()
}

/// A listing determines the mapping it lists.
proof fn lemma_lists_unique(
    pairs: Seq<(Seq<char>, Seq<char>)>,
    a: Map<Seq<char>, Seq<char>>,
    b: Map<Seq<char>, Seq<char>>,
)
    requires
        lists(pairs, a),
        lists(pairs, b),
    ensures
        a == b,
{
    assert forall|k: Seq<char>| a.contains_key(k) implies b.contains_key(k) && a[k] == b[k] by {
        let i = choose|i: int| 0 <= i < pairs.len() && #[trigger] pairs[i].0 == k;
        assert(b.contains_key(pairs[i].0));
    }
    assert forall|k: Seq<char>| b.contains_key(k) implies a.contains_key(k) by {
        let i = choose|i: int| 0 <= i < pairs.len() && #[trigger] pairs[i].0 == k;
        assert(a.contains_key(pairs[i].0));
    }
    assert(a =~= b);
}

/// Appending a new key to a listing lists the mapping with that key inserted.
proof fn lemma_lists_push(
    pairs: Seq<(Seq<char>, Seq<char>)>,
    fields: Map<Seq<char>, Seq<char>>,
    key: Seq<char>,
    value: Seq<char>,
)
    requires
        lists(pairs, fields),
        !fields.contains_key(key),
    ensures
        lists(pairs.push((key, value)), fields.insert(key, value)),
{
    let after = pairs.push((key, value));
    let m = fields.insert(key, value);
    assert forall|k: Seq<char>| #[trigger] m.contains_key(k) implies exists|i: int|
        0 <= i < after.len() && #[trigger] after[i].0 == k by {
        if k == key {
            assert(after[pairs.len() as int].0 == k);
        } else {
            let i = choose|i: int| 0 <= i < pairs.len() && #[trigger] pairs[i].0 == k;
            assert(after[i].0 == k);
        }
    }
}

/// Replacing the value at one place of a listing lists the mapping with that key rewritten.
proof fn lemma_lists_update(
    pairs: Seq<(Seq<char>, Seq<char>)>,
    fields: Map<Seq<char>, Seq<char>>,
    at: int,
    value: Seq<char>,
)
    requires
        lists(pairs, fields),
        0 <= at < pairs.len(),
    ensures
        lists(pairs.update(at, (pairs[at].0, value)), fields.insert(pairs[at].0, value)),
{
    let key = pairs[at].0;
    let after = pairs.update(at, (key, value));
    let m = fields.insert(key, value);
    assert forall|k: Seq<char>| #[trigger] m.contains_key(k) implies exists|i: int|
        0 <= i < after.len() && #[trigger] after[i].0 == k by {
        if k == key {
            assert(after[at].0 == k);
        } else {
            let i = choose|i: int| 0 <= i < pairs.len() && #[trigger] pairs[i].0 == k;
            assert(after[i].0 == k);
        }
    }
}

/// Dropping one place of a listing lists the mapping without that key.
proof fn lemma_lists_remove(
    pairs: Seq<(Seq<char>, Seq<char>)>,
    fields: Map<Seq<char>, Seq<char>>,
    at: int,
)
    requires
        lists(pairs, fields),
        0 <= at < pairs.len(),
    ensures
        lists(pairs.remove(at), fields.remove(pairs[at].0)),
{
    let after = pairs.remove(at);
    let m = fields.remove(pairs[at].0);
    assert forall|k: Seq<char>| #[trigger] m.contains_key(k) implies exists|i: int|
        0 <= i < after.len() && #[trigger] after[i].0 == k by {
        let i = choose|i: int| 0 <= i < pairs.len() && #[trigger] pairs[i].0 == k;
        if i < at {
            assert(after[i].0 == k);
        } else {
            assert(after[i - 1].0 == k);
        }
    }
}

/// The keys of a run of entries, in order.
spec fn keys_of(entries: Seq<Entry>) -> Seq<Seq<char>> {
    Seq::new(entries.len(), |i: int| entries[i].key@)
}

impl View for Fields {
    type V = Map<Seq<char>, Seq<char>>;

    closed spec fn view(&self) -> Map<Seq<char>, Seq<char>> {
        Map::new(
            |k: Seq<char>| self.key_seq().contains(k),
            |k: Seq<char>| self.entries@[self.key_seq().index_of(k)].value@,
        )
    }
}

impl Fields {
    /// The keys in listing order.
    spec fn key_seq(&self) -> Seq<Seq<char>> {
        keys_of(self.entries@)
    }

    /// The entries in listing order, each as key and value.
    pub closed spec fn pairs(&self) -> Seq<(Seq<char>, Seq<char>)> {
        Seq::new(self.entries@.len(), |i: int| (self.entries@[i].key@, self.entries@[i].value@))
    }

    #[verifier::type_invariant]
    spec fn keys_distinct(&self) -> bool {
        self.key_seq().no_duplicates()
    }

    proof fn lemma_view_at(&self, i: int)
        requires
            self.key_seq().no_duplicates(),
            0 <= i < self.entries@.len(),
        ensures
            self@.contains_key(self.entries@[i].key@),
            self@[self.entries@[i].key@] == self.entries@[i].value@,
    {
        assert(self.key_seq()[i] == self.entries@[i].key@);
    }

    proof fn lemma_lists(&self)
        requires
            self.key_seq().no_duplicates(),
        ensures
            lists(self.pairs(), self@),
    {
        let ks = self.key_seq();
        let ps = self.pairs();
        assert forall|i: int| 0 <= i < ps.len() implies self@.contains_key(#[trigger] ps[i].0)
            && self@[ps[i].0] == ps[i].1 by {
            self.lemma_view_at(i);
        }
        assert forall|k: Seq<char>| #[trigger] self@.contains_key(k) implies exists|i: int|
            0 <= i < ps.len() && #[trigger] ps[i].0 == k by {
            let j = ks.index_of(k);
            assert(ps[j].0 == k);
        }
        assert forall|i: int, j: int| 0 <= i < j < ps.len() implies #[trigger] ps[i].0
            != #[trigger] ps[j].0 by {
            assert(ks[i] == ps[i].0 && ks[j] == ps[j].0);
        }
        ks.unique_seq_to_set();
    }

    /// The empty field set.
    pub fn new() -> (fields: Fields)
        ensures
            fields@ == Map::<Seq<char>, Seq<char>>::empty(),
            fields.pairs() == Seq::<(Seq<char>, Seq<char>)>::empty(),
    {
        let fields = Fields { entries: Vec::new() };
        fields
    }

    /// The number of keys.
    pub fn len(&self) -> (n: usize)
        ensures
            n == self@.dom().len(),
            n == self.pairs().len(),
            lists(self.pairs(), self@),
    {
        proof {
            use_type_invariant(self);
            self.lemma_lists();
        }
        self.entries.len()
    }

    /// Whether no key is set.
    pub fn is_empty(&self) -> (empty: bool)
        ensures
            empty <==> self@ == Map::<Seq<char>, Seq<char>>::empty(),
    {
        proof {
            use_type_invariant(self);
            self.lemma_lists();
            if self.entries@.len() == 0 {
                assert(self@ =~= Map::<Seq<char>, Seq<char>>::empty());
            } else {
                self.lemma_view_at(0);
            }
        }
        self.entries.len() == 0
    }

    /// The key and the value at place `i` of the listing, for every `i` below
    /// the number of keys.
    pub fn entry_at(&self, i: usize) -> (entry: Option<(&String, &String)>)
        ensures
            lists(self.pairs(), self@),
            match entry {
                Some((key, value)) => i < self.pairs().len() && key@ == self.pairs()[i as int].0
                    && value@ == self.pairs()[i as int].1,
                None => i >= self.pairs().len(),
            },
    {
        proof {
            use_type_invariant(self);
            self.lemma_lists();
        }
        if i < self.entries.len() {
            Some((&self.entries[i].key, &self.entries[i].value))
        } else {
            None
        }
    }

    /// Moves the entries out and leaves the field set empty.
    fn take_entries(&mut self) -> (entries: Vec<Entry>)
        ensures
            entries@ == old(self).entries@,
            final(self).entries@.len() == 0,
    {
        let mut entries: Vec<Entry> = Vec::new();
        std::mem::swap(&mut self.entries, &mut entries);
        entries
    }

    fn position(&self, key: &String) -> (found: Option<usize>)
        ensures
            match found {
                Some(i) => i < self.entries@.len() && self.entries@[i as int].key@ == key@,
                None => !self.key_seq().contains(key@),
            },
    {
        let n = self.entries.len();
        let mut i: usize = 0;
        while i < n
            invariant
                n == self.entries@.len(),
                i <= n,
                forall|j: int| 0 <= j < i ==> self.entries@[j].key@ != key@,
            decreases n - i,
        {
            if self.entries[i].key == *key {
                return Some(i);
            }
            i = i + 1;
        }
        None
    }

    /// Whether `key` is set.
    pub fn contains_key(&self, key: &str) -> (present: bool)
        ensures
            present == self@.contains_key(key@),
    {
        let owned = key.to_owned();
        match self.position(&owned) {
            Some(i) => {
                proof {
                    use_type_invariant(self);
                    self.lemma_view_at(i as int);
                }
                true
            },
            None => false,
        }
    }

    /// The value of `key`, if it is set.
    pub fn get(&self, key: &str) -> (value: Option<&String>)
        ensures
            match value {
                Some(v) => self@.contains_key(key@) && v@ == self@[key@],
                None => !self@.contains_key(key@),
            },
    {
        let owned = key.to_owned();
        match self.position(&owned) {
            Some(i) => {
                proof {
                    use_type_invariant(self);
                    self.lemma_view_at(i as int);
                }
                Some(&self.entries[i].value)
            },
            None => None,
        }
    }

    /// Sets `key` to `value`, whether or not it was set before.
    pub fn set(&mut self, key: String, value: String)
        ensures
            final(self)@ == old(self)@.insert(key@, value@),
    {
        proof {
            use_type_invariant(&*self);
            self.lemma_lists();
        }
        let ghost before = *self;
        match self.position(&key) {
            Some(i) => {
                proof {
                    lemma_lists_update(before.pairs(), before@, i as int, value@);
                }
                let mut entries = self.take_entries();
                entries[i].value = value;
                assert(keys_of(entries@) =~= before.key_seq());
                self.entries = entries;
                proof {
                    assert(self.pairs() =~= before.pairs().update(
                        i as int,
                        (before.pairs()[i as int].0, value@),
                    ));
                    self.lemma_lists();
                    lemma_lists_unique(self.pairs(), self@, before@.insert(key@, value@));
                }
            },
            None => {
                proof {
                    lemma_lists_push(before.pairs(), before@, key@, value@);
                }
                let mut entries = self.take_entries();
                entries.push(Entry { key, value });
                proof {
                    assert(keys_of(entries@) =~= before.key_seq().push(key@));
                }
                self.entries = entries;
                proof {
                    assert(self.pairs() =~= before.pairs().push((key@, value@)));
                    self.lemma_lists();
                    lemma_lists_unique(self.pairs(), self@, before@.insert(key@, value@));
                }
            },
        }
    }

    /// Removes `key`. Tells whether it was set.
    pub fn remove(&mut self, key: &str) -> (removed: bool)
        ensures
            final(self)@ == old(self)@.remove(key@),
            removed == old(self)@.contains_key(key@),
    {
        proof {
            use_type_invariant(&*self);
            self.lemma_lists();
        }
        let ghost before = *self;
        let owned = key.to_owned();
        match self.position(&owned) {
            Some(i) => {
                proof {
                    before.lemma_view_at(i as int);
                    lemma_lists_remove(before.pairs(), before@, i as int);
                }
                let mut entries = self.take_entries();
                entries.remove(i);
                proof {
                    let ks = keys_of(entries@);
                    let was = before.key_seq();
                    assert forall|a: int, b: int| 0 <= a < ks.len() && 0 <= b < ks.len() && a
                        != b implies ks[a] != ks[b] by {
                        let oa = if a < i { a } else { a + 1 };
                        let ob = if b < i { b } else { b + 1 };
                        assert(ks[a] == was[oa] && ks[b] == was[ob]);
                    }
                }
                self.entries = entries;
                proof {
                    assert(self.pairs() =~= before.pairs().remove(i as int));
                    self.lemma_lists();
                    lemma_lists_unique(self.pairs(), self@, before@.remove(key@));
                }
                true
            },
            None => {
                false
            },
        }
    }
}

impl Clone for Fields {
    fn clone(&self) -> (copy: Fields)
        ensures
            copy@ == self@,
            copy.pairs() == self.pairs(),
    {
        proof {
            use_type_invariant(self);
        }
        let n = self.entries.len();
        let mut entries: Vec<Entry> = Vec::new();
        let mut i: usize = 0;
        while i < n
            invariant
                n == self.entries@.len(),
                i <= n,
                entries@.len() == i,
                forall|j: int| 0 <= j < i ==> entries@[j] == self.entries@[j],
            decreases n - i,
        {
            let key = self.entries[i].key.clone();
            let value = self.entries[i].value.clone();
            entries.push(Entry { key, value });
            i = i + 1;
        }
        assert(entries@ =~= self.entries@);
        Fields { entries }
    }
}

impl PartialEq for Fields {
    /// Two field sets are equal when they map the same keys to the same values.
    fn eq(&self, other: &Fields) -> (same: bool) {
        let n = self.len();
        let m = other.len();
        if n != m {
            return false;
        }
        let mut i: usize = 0;
        while i < n
            invariant
                n == self.pairs().len(),
                n == self.entries@.len(),
                i <= n,
                lists(self.pairs(), self@),
                forall|j: int|
                    0 <= j < i ==> other@.contains_key(#[trigger] self.pairs()[j].0) && other@[self.pairs()[j].0]
                        == self.pairs()[j].1,
            decreases n - i,
        {
            let key = &self.entries[i].key;
            let value = &self.entries[i].value;
            match other.get(key.as_str()) {
                Some(theirs) => {
                    if !(*theirs == *value) {
                        assert(self@[self.pairs()[i as int].0] != other@[self.pairs()[i as int].0]);
                        return false;
                    }
                },
                None => {
                    assert(self@.contains_key(self.pairs()[i as int].0));
                    return false;
                },
            }
            i = i + 1;
        }
        proof {
            let ps = self.pairs();
            assert forall|k: Seq<char>| self@.contains_key(k) implies other@.contains_key(k)
                && other@[k] == self@[k] by {
                let j = choose|j: int| 0 <= j < ps.len() && #[trigger] ps[j].0 == k;
                assert(other@.contains_key(ps[j].0));
            }
            vstd::set_lib::lemma_subset_equality(self@.dom(), other@.dom());
            assert(self@ =~= other@);
        }
        true
    }
}

impl PartialEqSpecImpl for Fields {
    open spec fn obeys_eq_spec() -> bool {
        true
    }

    open spec fn eq_spec(&self, other: &Fields) -> bool {
        self@ == other@
    }
}

impl Eq for Fields {

}

} // verus!
