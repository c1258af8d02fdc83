//! Free-form properties of a logging context: structured values held as
//! compact JSON text, under distinct keys.

use vstd::prelude::*;

verus! {

/// What `serde_json` makes of a text: the compact rendering of the JSON value
/// that the text denotes, or nothing where the text is not one JSON value.
pub uninterp spec fn compact_json_text(text: Seq<char>) -> Option<Seq<char>>;

/// Whether `text` is the compact rendering of some JSON value.
pub open spec fn is_compact_json(text: Seq<char>) -> bool {
    exists|source: Seq<char>| compact_json_text(source) == Some(text)
}

/// Keys and values of a property list, in the order in which the keys came.
pub type PropertiesView = Seq<(Seq<char>, Seq<char>)>;

/// Whether some entry has the key.
pub open spec fn has_key(entries: PropertiesView, key: Seq<char>) -> bool {
    exists|i: int| 0 <= i < entries.len() && entries[i].0 == key
}

/// Whether no key occurs twice.
pub open spec fn distinct_keys(entries: PropertiesView) -> bool {
    forall|i: int, j: int| 0 <= i < j < entries.len() ==> entries[i].0 != entries[j].0
}

/// The value under a key, if the key is there.
pub open spec fn lookup(entries: PropertiesView, key: Seq<char>) -> Option<Seq<char>> {
    if has_key(entries, key) {
        Some(entries[choose|i: int| 0 <= i < entries.len() && entries[i].0 == key].1)
    } else {
        None
    }
}

/// The entries after `key` is given `value`: a key that is there keeps its
/// place and gets the new value, a new key goes to the end.
pub open spec fn upsert(entries: PropertiesView, key: Seq<char>, value: Seq<char>)
    -> PropertiesView {
    if has_key(entries, key) {
        Seq::new(
            entries.len(),
            |i: int|
                if entries[i].0 == key {
                    (key, value)
                } else {
                    entries[i]
                },
        )
    } else {
        entries.push((key, value))
    }
}

/// The two texts of a stored pair.
pub open spec fn pair_view(pair: (String, PropertyValue)) -> (Seq<char>, Seq<char>) {
    (pair.0@, pair.1@)
}

/// Giving a key a value keeps the keys distinct.
pub proof fn lemma_upsert_keeps_keys_distinct(
    entries: PropertiesView,
    key: Seq<char>,
    value: Seq<char>,
)
    requires
        distinct_keys(entries),
    ensures
        distinct_keys(upsert(entries, key, value)),
        has_key(entries, key) ==> upsert(entries, key, value).len() == entries.len(),
        !has_key(entries, key) ==> upsert(entries, key, value).len() == entries.len() + 1,
{
}

/// After a key is given a value, that value is found under the key, and every
/// other key keeps what it had.
pub proof fn lemma_lookup_after_upsert(
    entries: PropertiesView,
    key: Seq<char>,
    value: Seq<char>,
    other: Seq<char>,
)
    requires
        distinct_keys(entries),
    ensures
        lookup(upsert(entries, key, value), key) == Some(value),
        other != key ==> lookup(upsert(entries, key, value), other) == lookup(entries, other),
{
    let after = upsert(entries, key, value);
    if has_key(entries, key) {
        let i = choose|i: int| 0 <= i < entries.len() && entries[i].0 == key;
        assert(after[i].0 == key);
    } else {
        assert(after[entries.len() as int].0 == key);
    }
    assert(has_key(after, key));
    if other != key {
        if has_key(entries, other) {
            let i = choose|i: int| 0 <= i < entries.len() && entries[i].0 == other;
            assert(after[i] == entries[i]);
            assert(has_key(after, other));
            let j = choose|j: int| 0 <= j < after.len() && after[j].0 == other;
            assert(j < entries.len());
            assert(entries[j].0 == other);
            assert(i == j);
        } else {
            if has_key(after, other) {
                let j = choose|j: int| 0 <= j < after.len() && after[j].0 == other;
                if j < entries.len() {
                    assert(entries[j].0 == other);
                }
            }
        }
    }
}

/// A structured value, held as its compact JSON text.
#[derive(Debug)]
pub struct PropertyValue {
    json: String,
}

impl View for PropertyValue {
    type V = Seq<char>;

    /// The compact JSON text of the value.
    closed spec fn view(&self) -> Seq<char> {
        self.json@
    }
}

impl Clone for PropertyValue {
    fn clone(&self) -> (copy: Self)
        ensures
            copy@ == self@,
    {
        proof {
            use_type_invariant(self);
        }
        PropertyValue { json: self.json.clone() }
    }
}

impl PropertyValue {
    #[verifier::type_invariant]
    spec fn holds_compact_json(self) -> bool {
        is_compact_json(self.json@)
    }

    /// Reads a value from JSON text. The value holds the compact rendering of
    /// the text; text that is not one JSON value gives nothing.
    pub fn parse(text: &str) -> (value: Option<PropertyValue>)
        ensures
            value is Some <==> compact_json_text(text@) is Some,
            value matches Some(v) ==> Some(v@) == compact_json_text(text@),
    {
        match compact_json(text) {
            Some(json) => {
                assert(is_compact_json(json@));
                Some(PropertyValue { json })
            },
            None => None,
        }
    }

    /// The compact JSON text of the value.
    pub fn as_str(&self) -> (text: &str)
        ensures
            text@ == self@,
            is_compact_json(text@),
    {
        proof {
            use_type_invariant(self);
        }
        self.json.as_str()
    }
}

/// Property values under distinct keys, kept in the order in which the keys
/// were first given.
#[derive(Debug)]
pub struct Properties {
    entries: Vec<(String, PropertyValue)>,
}

impl View for Properties {
    type V = PropertiesView;

    closed spec fn view(&self) -> PropertiesView {
        self.entries@.map_values(|pair: (String, PropertyValue)| pair_view(pair))
    }
}

impl Clone for Properties {
    fn clone(&self) -> (copy: Self)
        ensures
            copy@ == self@,
    {
        proof {
            use_type_invariant(self);
        }
        let mut entries: Vec<(String, PropertyValue)> = Vec::new();
        let mut i: usize = 0;
        while i < self.entries.len()
            invariant
                i <= self.entries.len(),
                entries@.len() == i,
                forall|j: int| 0 <= j < i ==> pair_view(entries@[j]) == pair_view(self.entries@[j]),
            decreases self.entries.len() - i,
        {
            let pair = &self.entries[i];
            entries.push((pair.0.clone(), pair.1.clone()));
            i += 1;
        }
        assert(entries@.map_values(|pair: (String, PropertyValue)| pair_view(pair))
            =~= self.entries@.map_values(|pair: (String, PropertyValue)| pair_view(pair)));
        Properties { entries }
    }
}

impl Properties {
    #[verifier::type_invariant]
    spec fn keys_are_distinct(self) -> bool {
        distinct_keys(self@)
    }

    /// No properties.
    pub fn new() -> (made: Properties)
        ensures
            made@ == Seq::<(Seq<char>, Seq<char>)>::empty(),
    {
        let made = Properties { entries: Vec::new() };
        assert(made@ =~= Seq::<(Seq<char>, Seq<char>)>::empty());
        made
    }

    /// The number of properties.
    pub fn len(&self) -> (n: usize)
        ensures
            n == self@.len(),
            distinct_keys(self@),
    {
        proof {
            use_type_invariant(self);
        }
        self.entries.len()
    }

    /// Whether there is no property.
    pub fn is_empty(&self) -> (empty: bool)
        ensures
            empty == (self@.len() == 0),
    {
        self.entries.len() == 0
    }

    /// The key at a position.
    pub fn key_at(&self, index: usize) -> (key: &str)
        requires
            index < self@.len(),
        ensures
            key@ == self@[index as int].0,
    {
        self.entries[index].0.as_str()
    }

    /// The value at a position.
    pub fn value_at(&self, index: usize) -> (value: &PropertyValue)
        requires
            index < self@.len(),
        ensures
            value@ == self@[index as int].1,
    {
        &self.entries[index].1
    }

    fn position(&self, key: &str) -> (found: Option<usize>)
        ensures
            found is Some <==> has_key(self@, key@),
            found matches Some(i) ==> i < self@.len() && self@[i as int].0 == key@,
    {
        let mut i: usize = 0;
        while i < self.entries.len()
            invariant
                i <= self.entries.len(),
                forall|j: int| 0 <= j < i ==> self@[j].0 != key@,
            decreases self.entries.len() - i,
        {
            assert(self@[i as int] == pair_view(self.entries@[i as int]));
            if crate::text::same_text(self.entries[i].0.as_str(), key) {
                return Some(i);
            }
            i += 1;
        }
        None
    }

    /// The value under a key, if the key is there.
    pub fn get(&self, key: &str) -> (value: Option<&PropertyValue>)
        ensures
            match value {
                Some(v) => lookup(self@, key@) == Some(v@),
                None => lookup(self@, key@) is None,
            },
    {
        proof {
            use_type_invariant(self);
        }
        match self.position(key) {
            Some(i) => {
                let ghost chosen = choose|j: int| 0 <= j < self@.len() && self@[j].0 == key@;
                assert(chosen == i);
                Some(&self.entries[i].1)
            },
            None => None,
        }
    }

    /// Gives `key` the value `value`: a key that is there keeps its place and
    /// gets the new value, a new key goes to the end.
    pub fn insert(&mut self, key: String, value: PropertyValue)
        ensures
            final(self)@ == upsert(old(self)@, key@, value@),
    {
        proof {
            use_type_invariant(&*self);
            lemma_upsert_keeps_keys_distinct(self@, key@, value@);
        }
        let found = self.position(key.as_str());
        let mut entries: Vec<(String, PropertyValue)> = Vec::new();
        std::mem::swap(&mut self.entries, &mut entries);
        match found {
            Some(i) => {
                entries.remove(i);
                entries.insert(i, (key, value));
            },
            None => {
                entries.push((key, value));
            },
        }
        assert(entries@.map_values(|pair: (String, PropertyValue)| pair_view(pair))
            =~= upsert(old(self)@, key@, value@));
        self.entries = entries;
    }
}

/// Calls `serde_json::from_str` for a `serde_json::Value` and, where that
/// succeeds, `serde_json::to_string` on the value. Claimed: whether both
/// succeed, and the text that comes out, are functions of the input text alone.
#[verifier::external_body]
fn compact_json(text: &str) -> (compact: Option<String>)
    ensures
        crate::text::opt_text(compact) == compact_json_text(text@),
{
    match serde_json::from_str::<serde_json::Value>(text) {
        Ok(value) => serde_json::to_string(&value).ok(),
        Err(_) => None,
    }
}

} // verus!
