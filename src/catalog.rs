use vstd::prelude::*;
use crate::locale::AvailableLocales;
use crate::message::Message;

verus! {

/// A keyed message of a catalog.
#[derive(Debug)]
pub struct Entry {
    pub key: String,
    pub message: Message,
}

/// The messages of one locale. Where two entries share a key, the first counts.
#[derive(Debug)]
pub struct Catalog {
    pub locale: AvailableLocales,
    pub entries: Vec<Entry>,
}

/// The position of the first entry keyed `key` among the first `n`.
pub open spec fn entry_pos(entries: Seq<Entry>, key: Seq<char>, n: nat) -> Option<int>
    decreases n,
{
    if n == 0 {
        None
    } else {
        match entry_pos(entries, key, (n - 1) as nat) {
            Some(p) => Some(p),
            None => if entries[n - 1].key@ == key {
                Some(n - 1)
            } else {
                None
            },
        }
    }
}

/// The message a catalog holds under `key`, if any.
pub open spec fn message_of(c: Catalog, key: Seq<char>) -> Option<Message> {
    match entry_pos(c.entries@, key, c.entries@.len()) {
        Some(p) => Some(c.entries@[p].message),
        None => None,
    }
}

/// The position of the first catalog for locale `l` among the first `n`.
pub open spec fn catalog_pos(cs: Seq<Catalog>, l: AvailableLocales, n: nat) -> Option<int>
    decreases n,
{
    if n == 0 {
        None
    } else {
        match catalog_pos(cs, l, (n - 1) as nat) {
            Some(p) => Some(p),
            None => if cs[n - 1].locale == l {
                Some(n - 1)
            } else {
                None
            },
        }
    }
}

/// The catalog that a set of catalogs holds for locale `l`, if any.
pub open spec fn catalog_of(cs: Seq<Catalog>, l: AvailableLocales) -> Option<Catalog> {
    match catalog_pos(cs, l, cs.len()) {
        Some(p) => Some(cs[p]),
        None => None,
    }
}

proof fn lemma_entry_pos_stable(entries: Seq<Entry>, key: Seq<char>, n: nat, m: nat)
    requires
        n <= m,
        entry_pos(entries, key, n) is Some,
    ensures
        entry_pos(entries, key, m) == entry_pos(entries, key, n),
    decreases m - n,
{
    if n < m {
        lemma_entry_pos_stable(entries, key, n, (m - 1) as nat);
    }
}

proof fn lemma_catalog_pos_stable(cs: Seq<Catalog>, l: AvailableLocales, n: nat, m: nat)
    requires
        n <= m,
        catalog_pos(cs, l, n) is Some,
    ensures
        catalog_pos(cs, l, m) == catalog_pos(cs, l, n),
    decreases m - n,
{
    if n < m {
        lemma_catalog_pos_stable(cs, l, n, (m - 1) as nat);
    }
}

impl Catalog {
    /// The position of the entry that holds the message keyed `key`, if any.
    pub fn find(&self, key: &String) -> (r: Option<usize>)
        ensures
            r matches Some(p) ==> p < self.entries@.len() && message_of(*self, key@) == Some(
                self.entries@[p as int].message,
            ),
            r is None ==> message_of(*self, key@) is None,
    {
        let mut i: usize = 0;
        while i < self.entries.len()
            invariant
                i <= self.entries@.len(),
                entry_pos(self.entries@, key@, i as nat) is None,
            decreases self.entries@.len() - i,
        {
            if self.entries[i].key == *key {
                proof {
                    lemma_entry_pos_stable(self.entries@, key@, (i + 1) as nat, self.entries@.len());
                }
                return Some(i);
            }
            i = i + 1;
        }
        None
    }
}

/// The position of the catalog for locale `l` in `cs`, if any.
pub fn find_catalog(cs: &Vec<Catalog>, l: AvailableLocales) -> (r: Option<usize>)
    ensures
        r matches Some(p) ==> p < cs@.len() && catalog_of(cs@, l) == Some(cs@[p as int]),
        r is None ==> catalog_of(cs@, l) is None,
{
    let mut i: usize = 0;
    while i < cs.len()
        invariant
            i <= cs@.len(),
            catalog_pos(cs@, l, i as nat) is None,
        decreases cs@.len() - i,
    {
        if cs[i].locale == l {
            proof {
                lemma_catalog_pos_stable(cs@, l, (i + 1) as nat, cs@.len());
            }
            return Some(i);
        }
        i = i + 1;
    }
    None
}

} // verus!
