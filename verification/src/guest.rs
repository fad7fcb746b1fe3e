//! The attributes by which a code host identifies one of its guests.

use vstd::prelude::*;

verus! {

/// The name of a guest attribute.
#[derive(Debug, PartialEq, Eq)]
pub enum AttributeKey {
    /// The guest's audit token.
    AuditToken,
    /// The guest's process id.
    Pid,
    /// Any other attribute, by the name that the operating system gives it.
    Other(String),
}

/// An attribute's name as a plain value.
pub enum KeyModel {
    AuditToken,
    Pid,
    Other(Seq<char>),
}

/// The value of a guest attribute.
#[derive(Debug, PartialEq, Eq)]
pub enum AttributeValue {
    /// A binary blob.
    Bytes(Vec<u8>),
    /// An integer.
    Integer(i32),
    /// A value of any other type, held by the embedding program and named
    /// here by the number that the program gave it.
    Object(u64),
}

/// An attribute's value as a plain value.
pub enum ValueModel {
    Bytes(Seq<u8>),
    Integer(i32),
    Object(u64),
}

/// One attribute: its name and its value.
#[derive(Debug, PartialEq, Eq)]
pub struct Entry {
    pub key: AttributeKey,
    pub value: AttributeValue,
}

impl AttributeKey {
    pub open spec fn view(self) -> KeyModel {
        match self {
            AttributeKey::AuditToken => KeyModel::AuditToken,
            AttributeKey::Pid => KeyModel::Pid,
            AttributeKey::Other(name) => KeyModel::Other(name@),
        }
    }

    /// Whether two keys name the same attribute.
    pub fn same(&self, other: &AttributeKey) -> (r: bool)
        ensures
            r == (self@ == other@),
    {
        match self {
            AttributeKey::AuditToken => match other {
                AttributeKey::AuditToken => true,
                _ => false,
            },
            AttributeKey::Pid => match other {
                AttributeKey::Pid => true,
                _ => false,
            },
            AttributeKey::Other(a) => match other {
                AttributeKey::Other(b) => *a == *b,
                _ => false,
            },
        }
    }
}

impl AttributeValue {
    pub open spec fn view(self) -> ValueModel {
        match self {
            AttributeValue::Bytes(bytes) => ValueModel::Bytes(bytes@),
            AttributeValue::Integer(n) => ValueModel::Integer(n),
            AttributeValue::Object(id) => ValueModel::Object(id),
        }
    }
}

/// No two entries of `s` have the same key.
spec fn distinct_keys(s: Seq<Entry>) -> bool {
    forall|i: int, j: int| 0 <= i < j < s.len() ==> s[i].key@ != s[j].key@
}

/// Some entry of `s` has the key `k`.
spec fn holds(s: Seq<Entry>, k: KeyModel) -> bool {
    exists|i: int| 0 <= i < s.len() && #[trigger] s[i].key@ == k
}

/// Where in `s` an entry with the key `k` stands.
spec fn position(s: Seq<Entry>, k: KeyModel) -> int {
    choose|i: int| 0 <= i < s.len() && #[trigger] s[i].key@ == k
}

/// The mapping that the entries of `s` make up.
spec fn as_map(s: Seq<Entry>) -> Map<KeyModel, ValueModel> {
    Map::new(|k: KeyModel| holds(s, k), |k: KeyModel| s[position(s, k)].value@)
}

/// The keys of `s`, in its order.
spec fn keys_of(s: Seq<Entry>) -> Seq<KeyModel> {
    Seq::new(s.len(), |i: int| s[i].key@)
}

/// Among distinct keys, a key stands where it is found and nowhere else,
/// and the mapping gives it the value that stands beside it.
proof fn lemma_position(s: Seq<Entry>, k: KeyModel, i: int)
    requires
        distinct_keys(s),
        0 <= i < s.len(),
        s[i].key@ == k,
    ensures
        holds(s, k),
        position(s, k) == i,
        as_map(s).contains_key(k),
        as_map(s)[k] == s[i].value@,
{
    let p = position(s, k);
    assert(0 <= p < s.len() && s[p].key@ == k);
    if p < i {
        assert(s[p].key@ != s[i].key@);
    } else if i < p {
        assert(s[i].key@ != s[p].key@);
    }
}

/// Putting an entry in the place of one with the same key keeps the keys
/// and their order, and changes the mapping at that key alone.
proof fn lemma_replace(s: Seq<Entry>, i: int, e: Entry)
    requires
        distinct_keys(s),
        0 <= i < s.len(),
        s[i].key@ == e.key@,
    ensures
        distinct_keys(s.update(i, e)),
        as_map(s.update(i, e)) == as_map(s).insert(e.key@, e.value@),
        keys_of(s.update(i, e)) == keys_of(s),
        holds(s, e.key@),
{
    let t = s.update(i, e);
    assert forall|k: int| 0 <= k < s.len() implies #[trigger] t[k].key@ == s[k].key@ by {}
    assert(distinct_keys(t));
    assert(keys_of(t) =~= keys_of(s));
    let m = as_map(s).insert(e.key@, e.value@);
    assert forall|k: KeyModel| as_map(t).contains_key(k) == m.contains_key(k) by {
        if holds(t, k) {
            let p = position(t, k);
            assert(s[p].key@ == k);
        }
        if holds(s, k) {
            let p = position(s, k);
            assert(t[p].key@ == k);
        }
        assert(t[i].key@ == e.key@);
    }
    assert forall|k: KeyModel| as_map(t).contains_key(k) implies as_map(t)[k] == m[k] by {
        let p = position(t, k);
        assert(0 <= p < t.len() && t[p].key@ == k);
        if k == e.key@ {
            lemma_position(t, k, i);
        } else {
            assert(p != i);
            assert(s[p].key@ == k);
            lemma_position(s, k, p);
        }
    }
    assert(as_map(t) =~= m);
    assert(s[i].key@ == e.key@);
}

/// Adding an entry whose key is new keeps the keys distinct, puts the key
/// last, and extends the mapping by it.
proof fn lemma_append(s: Seq<Entry>, e: Entry)
    requires
        distinct_keys(s),
        !holds(s, e.key@),
    ensures
        distinct_keys(s.push(e)),
        as_map(s.push(e)) == as_map(s).insert(e.key@, e.value@),
        keys_of(s.push(e)) == keys_of(s).push(e.key@),
{
    let t = s.push(e);
    let n = s.len() as int;
    assert forall|k: int| 0 <= k < n implies #[trigger] t[k] == s[k] by {}
    assert forall|a: int, b: int| 0 <= a < b < t.len() implies t[a].key@ != t[b].key@ by {
        if b == n {
            assert(s[a].key@ == t[a].key@);
        } else {
            assert(s[a].key@ != s[b].key@);
        }
    }
    assert(keys_of(t) =~= keys_of(s).push(e.key@));
    let m = as_map(s).insert(e.key@, e.value@);
    assert(t[n].key@ == e.key@);
    assert forall|k: KeyModel| as_map(t).contains_key(k) == m.contains_key(k) by {
        if holds(t, k) {
            let p = position(t, k);
            if p < n {
                assert(s[p].key@ == k);
            }
        }
        if holds(s, k) {
            let p = position(s, k);
            assert(t[p].key@ == k);
        }
    }
    assert forall|k: KeyModel| as_map(t).contains_key(k) implies as_map(t)[k] == m[k] by {
        let p = position(t, k);
        assert(0 <= p < t.len() && t[p].key@ == k);
        if k == e.key@ {
            lemma_position(t, k, n);
        } else {
            assert(p != n);
            assert(s[p].key@ == k);
            lemma_position(s, k, p);
            lemma_position(t, k, p);
        }
    }
    assert(as_map(t) =~= m);
}

/// Where among `entries` the key stands, if it does.
fn find(entries: &Vec<Entry>, key: &AttributeKey) -> (r: Option<usize>)
    ensures
        match r {
            Some(i) => i < entries@.len() && entries@[i as int].key@ == key@,
            None => !holds(entries@, key@),
        },
{
    let mut i: usize = 0;
    while i < entries.len()
        invariant
            i <= entries@.len(),
            forall|j: int| 0 <= j < i ==> (#[trigger] entries@[j]).key@ != key@,
        decreases entries@.len() - i,
    {
        if entries[i].key.same(key) {
            return Some(i);
        }
        i = i + 1;
    }
    None
}

/// Sets `key` to `value` among `entries`: in place where the key stands
/// already, at the end where it does not.
fn put(entries: &mut Vec<Entry>, key: AttributeKey, value: AttributeValue)
    requires
        distinct_keys(old(entries)@),
    ensures
        distinct_keys(final(entries)@),
        as_map(final(entries)@) == as_map(old(entries)@).insert(key@, value@),
        keys_of(final(entries)@) == if holds(old(entries)@, key@) {
            keys_of(old(entries)@)
        } else {
            keys_of(old(entries)@).push(key@)
        },
{
    let found = find(entries, &key);
    let entry = Entry { key, value };
    match found {
        Some(i) => {
            proof {
                lemma_replace(entries@, i as int, entry);
            }
            entries.set(i, entry);
        },
        None => {
            proof {
                lemma_append(entries@, entry);
            }
            entries.push(entry);
        },
    }
}

/// A helper to create guest attributes: a mapping from attribute names to
/// values, built up one attribute at a time and read by one lookup.
#[derive(Debug)]
pub struct GuestAttributes {
    entries: Vec<Entry>,
}

impl GuestAttributes {
    #[verifier::type_invariant]
    spec fn well_formed(self) -> bool {
        distinct_keys(self.entries@)
    }

    /// The mapping from names to values.
    pub closed spec fn view(self) -> Map<KeyModel, ValueModel> {
        as_map(self.entries@)
    }

    /// The names that have a value, each once, in the order in which they
    /// were first set.
    pub closed spec fn keys(self) -> Seq<KeyModel> {
        keys_of(self.entries@)
    }

    /// No attribute at all.
    pub fn new() -> (r: GuestAttributes)
        ensures
            r@ == Map::<KeyModel, ValueModel>::empty(),
            r.keys() == Seq::<KeyModel>::empty(),
    {
        let r = GuestAttributes { entries: Vec::new() };
        assert(r@ =~= Map::<KeyModel, ValueModel>::empty());
        assert(r.keys() =~= Seq::<KeyModel>::empty());
        r
    }

    /// Sets the attribute `key` to `value`. A value that the key had before
    /// is lost; every other attribute stays as it was.
    pub fn set(&mut self, key: AttributeKey, value: AttributeValue)
        ensures
            final(self)@ == old(self)@.insert(key@, value@),
            final(self).keys() == if old(self)@.contains_key(key@) {
                old(self).keys()
            } else {
                old(self).keys().push(key@)
            },
    {
        proof {
            use_type_invariant(&*self);
        }
        let mut entries: Vec<Entry> = Vec::new();
        std::mem::swap(&mut entries, &mut self.entries);
        put(&mut entries, key, value);
        self.entries = entries;
    }

    /// The guest's audit token.
    pub fn set_audit_token(&mut self, token: Vec<u8>)
        ensures
            final(self)@ == old(self)@.insert(KeyModel::AuditToken, ValueModel::Bytes(token@)),
            final(self).keys() == if old(self)@.contains_key(KeyModel::AuditToken) {
                old(self).keys()
            } else {
                old(self).keys().push(KeyModel::AuditToken)
            },
    {
        self.set(AttributeKey::AuditToken, AttributeValue::Bytes(token));
    }

    /// The guest's pid.
    pub fn set_pid(&mut self, pid: libc::pid_t)
        ensures
            final(self)@ == old(self)@.insert(KeyModel::Pid, ValueModel::Integer(pid)),
            final(self).keys() == if old(self)@.contains_key(KeyModel::Pid) {
                old(self).keys()
            } else {
                old(self).keys().push(KeyModel::Pid)
            },
    {
        self.set(AttributeKey::Pid, AttributeValue::Integer(pid));
    }

    /// Support for arbitrary guest attributes.
    pub fn set_other(&mut self, key: String, value: AttributeValue)
        ensures
            final(self)@ == old(self)@.insert(KeyModel::Other(key@), value@),
            final(self).keys() == if old(self)@.contains_key(KeyModel::Other(key@)) {
                old(self).keys()
            } else {
                old(self).keys().push(KeyModel::Other(key@))
            },
    {
        self.set(AttributeKey::Other(key), value);
    }

    /// The value of the attribute `key`, if it has one.
    pub fn get(&self, key: &AttributeKey) -> (r: Option<&AttributeValue>)
        ensures
            r.is_some() <==> self@.contains_key(key@),
            r.is_some() ==> r.unwrap()@ == self@[key@],
    {
        proof {
            use_type_invariant(self);
        }
        match find(&self.entries, key) {
            Some(i) => {
                proof {
                    lemma_position(self.entries@, key@, i as int);
                }
                Some(&self.entries[i].value)
            },
            None => None,
        }
    }

    /// How many attributes have a value.
    pub fn len(&self) -> (r: usize)
        ensures
            r == self.keys().len(),
            self.keys().no_duplicates(),
            forall|k: KeyModel| self@.contains_key(k) <==> self.keys().contains(k),
    {
        proof {
            use_type_invariant(self);
            let s = self.entries@;
            assert forall|k: KeyModel| self@.contains_key(k) <==> self.keys().contains(k) by {
                if holds(s, k) {
                    let p = position(s, k);
                    assert(keys_of(s)[p] == k);
                }
                if keys_of(s).contains(k) {
                    let p = choose|p: int| 0 <= p < keys_of(s).len() && keys_of(s)[p] == k;
                    assert(s[p].key@ == k);
                }
            }
        }
        self.entries.len()
    }

    /// The attribute that stands at `index` in the order of `keys`.
    pub fn entry(&self, index: usize) -> (r: &Entry)
        requires
            index < self.keys().len(),
        ensures
            r.key@ == self.keys()[index as int],
            self@.contains_key(r.key@),
            self@[r.key@] == r.value@,
    {
        proof {
            use_type_invariant(self);
            lemma_position(self.entries@, self.entries@[index as int].key@, index as int);
        }
        &self.entries[index]
    }
}

impl Default for GuestAttributes {
    /// The default holds no attribute.
    fn default() -> (r: GuestAttributes)
        ensures
            r@ == Map::<KeyModel, ValueModel>::empty(),
            r.keys() == Seq::<KeyModel>::empty(),
    {
        GuestAttributes::new()
    }
}

} // verus!
