//! A minimal hierarchical key: a path name together with named metadata
//! entries. The session layer exchanges whole key collections with the
//! database machinery without inspecting them, so all this layer ever reads
//! of a key are its name and its metadata; both are held here as plain
//! strings so that everything that consumes them can be verified.

use vstd::prelude::*;

verus! {

/// One metadata entry of a key: a name such as `error/number` and its value.
pub struct MetaEntry {
    pub name: String,
    pub value: String,
}

/// The mathematical value of a metadata entry: both strings as character
/// sequences.
pub struct MetaEntryView {
    pub name: Seq<char>,
    pub value: Seq<char>,
}

impl View for MetaEntry {
    type V = MetaEntryView;

    open spec fn view(&self) -> MetaEntryView {
        MetaEntryView { name: self.name@, value: self.value@ }
    }
}

/// A key: a hierarchical path name plus an ordered list of metadata entries.
pub struct StringKey {
    name: String,
    meta: Vec<MetaEntry>,
}

/// The mathematical value of a key.
pub struct StringKeyView {
    pub name: Seq<char>,
    pub meta: Seq<MetaEntryView>,
}

/// The value of the first entry of `entries` at or after position `i` whose
/// name is `name`, if any.
pub open spec fn meta_lookup_from(entries: Seq<MetaEntryView>, name: Seq<char>, i: int) -> Option<
    Seq<char>,
>
    decreases entries.len() - i,
{
    if i < 0 || i >= entries.len() {
        None
    } else if entries[i].name == name {
        Some(entries[i].value)
    } else {
        meta_lookup_from(entries, name, i + 1)
    }
}

/// The value of the first metadata entry named `name`, if any.
pub open spec fn meta_lookup(entries: Seq<MetaEntryView>, name: Seq<char>) -> Option<Seq<char>> {
    meta_lookup_from(entries, name, 0)
}

impl View for StringKey {
    type V = StringKeyView;

    closed spec fn view(&self) -> StringKeyView {
        StringKeyView { name: self.name@, meta: self.meta@.map_values(|e: MetaEntry| e@) }
    }
}

impl StringKey {
    /// A key with the given path name and no metadata.
    pub fn new(name: &str) -> (r: Self)
        ensures
            r@.name == name@,
            r@.meta == Seq::<MetaEntryView>::empty(),
    {
        let r = StringKey { name: String::from_str(name), meta: Vec::new() };
        proof {
            assert(r@.meta =~= Seq::<MetaEntryView>::empty());
        }
        r
    }

    /// A key with an empty path name and no metadata.
    pub fn new_empty() -> (r: Self)
        ensures
            r@.name == Seq::<char>::empty(),
            r@.meta == Seq::<MetaEntryView>::empty(),
    {
        let r = Self::new("");
        proof {
            reveal_strlit("");
            assert(r@.name =~= Seq::<char>::empty());
        }
        r
    }

    /// The key's path name.
    pub fn name(&self) -> (r: &str)
        ensures
            r@ == self@.name,
    {
        self.name.as_str()
    }

    /// Appends a metadata entry. A later entry never shadows an earlier one
    /// of the same name: lookup returns the first match.
    pub fn set_meta(&mut self, name: &str, value: &str)
        ensures
            final(self)@.name == old(self)@.name,
            final(self)@.meta == old(self)@.meta.push(
                MetaEntryView { name: name@, value: value@ },
            ),
    {
        self.meta.push(MetaEntry { name: String::from_str(name), value: String::from_str(value) });
        proof {
            assert(final(self)@.meta =~= old(self)@.meta.push(
                MetaEntryView { name: name@, value: value@ },
            ));
        }
    }

    /// The value of the first metadata entry named `name`, or `None` if the
    /// key carries no such entry.
    pub fn meta(&self, name: &str) -> (r: Option<String>)
        ensures
            r.deep_view() == meta_lookup(self@.meta, name@),
    {
        let needle = String::from_str(name);
        let n = self.meta.len();
        let mut i: usize = 0;
        while i < n
            invariant
                n == self.meta.len(),
                i <= n,
                needle@ == name@,
                meta_lookup(self@.meta, name@) == meta_lookup_from(self@.meta, name@, i as int),
            decreases n - i,
        {
            if self.meta[i].name == needle {
                return Some(self.meta[i].value.clone());
            }
            i = i + 1;
        }
        None
    }

    /// A deep copy, decoupled from this key: later changes to either key do
    /// not show in the other.
    pub fn duplicate(&self) -> (r: Self)
        ensures
            r@ == self@,
    {
        let mut meta: Vec<MetaEntry> = Vec::new();
        let n = self.meta.len();
        let mut i: usize = 0;
        while i < n
            invariant
                n == self.meta.len(),
                i <= n,
                meta@.len() == i,
                forall|j: int| 0 <= j < i ==> meta@[j]@ == self.meta@[j]@,
            decreases n - i,
        {
            meta.push(
                MetaEntry { name: self.meta[i].name.clone(), value: self.meta[i].value.clone() },
            );
            i = i + 1;
        }
        let r = StringKey { name: self.name.clone(), meta };
        proof {
            assert(r@.meta =~= self@.meta);
        }
        r
    }
}

} // verus!
