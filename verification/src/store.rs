//! The store of records under a base path, modelled by the set of
//! record-directory names that exist there. The model is what the delete and
//! expire policies are stated and proved against: removing a record that is
//! absent and expiring an already-empty store are both no-ops.

use vstd::prelude::*;
use crate::text::str_eq;

verus! {

/// The names of the record directories under a base path.
pub struct StoreState {
    entries: Vec<String>,
}

/// The record-directory names a sequence of entries holds.
pub open spec fn names_of(entries: Seq<String>) -> Set<Seq<char>> {
    entries.map_values(|s: String| s@).to_set()
}

/// Appending one entry adds exactly its name to a store's names.
proof fn lemma_names_push(entries: Seq<String>, e: String)
    ensures
        names_of(entries.push(e)) == names_of(entries).insert(e@),
{
    assert(entries.push(e).map_values(|s: String| s@) =~= entries.map_values(
        |s: String| s@,
    ).push(e@));
    entries.map_values(|s: String| s@).lemma_push_to_set_commute(e@);
    assert(names_of(entries.push(e)) =~= names_of(entries).insert(e@));
}

impl View for StoreState {
    type V = Set<Seq<char>>;

    /// The set of record-directory names in the store.
    closed spec fn view(&self) -> Set<Seq<char>> {
        names_of(self.entries@)
    }
}

impl StoreState {
    /// A base path with no records under it.
    pub fn new() -> (s: Self)
        ensures
            s@ == Set::<Seq<char>>::empty(),
    {
        let s = StoreState { entries: Vec::new() };
        proof {
            assert(s@ =~= Set::<Seq<char>>::empty());
        }
        s
    }

    /// A record's directory appears when the recorder creates it.
    pub fn add_record(&mut self, record_id: &str)
        ensures
            final(self)@ == old(self)@.insert(record_id@),
    {
        self.entries.push(record_id.to_owned());
        proof {
            lemma_names_push(old(self).entries@, self.entries@.last());
            assert(old(self).entries@.push(self.entries@.last()) =~= self.entries@);
            assert(self@ =~= old(self)@.insert(record_id@));
        }
    }

    /// Whether a record's directory exists in the store.
    pub fn has_record(&self, record_id: &str) -> (r: bool)
        ensures
            r == self@.contains(record_id@),
    {
        let mut i: usize = 0;
        while i < self.entries.len()
            invariant
                0 <= i <= self.entries@.len(),
                forall|j: int| 0 <= j < i ==> self.entries@[j]@ != record_id@,
            decreases self.entries@.len() - i,
        {
            if str_eq(self.entries[i].as_str(), record_id) {
                proof {
                    assert(self.entries@.map_values(|s: String| s@)[i as int] == record_id@);
                }
                return true;
            }
            i = i + 1;
        }
        proof {
            let mapped = self.entries@.map_values(|s: String| s@);
            if self@.contains(record_id@) {
                let k = choose|k: int| 0 <= k < mapped.len() && mapped[k] == record_id@;
                assert(self.entries@[k]@ == record_id@);
            }
        }
        false
    }

    /// Deletes a record by its ID: its directory is gone afterwards. When no
    /// such record exists, nothing changes.
    pub fn remove_record(&mut self, record_id: &str)
        ensures
            final(self)@ == old(self)@.remove(record_id@),
    {
        let n = self.entries.len();
        let mut kept: Vec<String> = Vec::new();
        let mut i: usize = 0;
        while i < n
            invariant
                0 <= i <= n,
                self.entries@ == old(self).entries@,
                n == self.entries@.len(),
                names_of(kept@) == names_of(self.entries@.take(i as int)).remove(record_id@),
            decreases n - i,
        {
            let ghost prefix = self.entries@.take(i as int);
            let ghost kept0 = kept@;
            let ghost ei = self.entries@[i as int];
            let e = self.entries[i].clone();
            proof {
                lemma_names_push(prefix, ei);
                assert(self.entries@.take(i + 1) =~= prefix.push(ei));
            }
            if !str_eq(e.as_str(), record_id) {
                kept.push(e);
                proof {
                    lemma_names_push(kept0, kept@.last());
                    assert(kept0.push(kept@.last()) =~= kept@);
                    assert(names_of(prefix).insert(ei@).remove(record_id@) =~= names_of(
                        prefix,
                    ).remove(record_id@).insert(ei@));
                    assert(names_of(kept@) =~= names_of(self.entries@.take(i + 1)).remove(
                        record_id@,
                    ));
                }
            } else {
                proof {
                    assert(names_of(prefix).insert(ei@).remove(record_id@) =~= names_of(
                        prefix,
                    ).remove(record_id@));
                    assert(names_of(kept@) =~= names_of(self.entries@.take(i + 1)).remove(
                        record_id@,
                    ));
                }
            }
            i = i + 1;
        }
        proof {
            assert(self.entries@.take(n as int) =~= self.entries@);
        }
        self.entries = kept;
    }

    /// Expires the store: every record directory under the base path is
    /// removed at once.
    pub fn expire(&mut self)
        ensures
            final(self)@ == Set::<Seq<char>>::empty(),
    {
        self.entries = Vec::new();
        proof {
            assert(self@ =~= Set::<Seq<char>>::empty());
        }
    }
}

/// Deleting a record removes its directory, and deleting it again changes
/// nothing more: repeated deletion of the same ID is safe.
pub proof fn lemma_delete_idempotent(store: Set<Seq<char>>, record_id: Seq<char>)
    ensures
        !store.remove(record_id).contains(record_id),
        store.remove(record_id).remove(record_id) == store.remove(record_id),
{
    assert(store.remove(record_id).remove(record_id) =~= store.remove(record_id));
}

/// Deleting a record that was never recorded leaves the store exactly as it
/// was: the deletion is a no-op, not an error.
pub proof fn lemma_delete_missing_noop(store: Set<Seq<char>>, record_id: Seq<char>)
    requires
        !store.contains(record_id),
    ensures
        store.remove(record_id) == store,
{
    assert(store.remove(record_id) =~= store);
}

/// The store after an expire pass, whatever it held before: nothing.
pub open spec fn expired(store: Set<Seq<char>>) -> Set<Seq<char>> {
    Set::empty()
}

/// Expiring removes every previously recorded record directory, and
/// expiring the result again changes nothing: no record survives, and
/// repetition is safe.
pub proof fn lemma_expire_removes_all(store: Set<Seq<char>>, record_id: Seq<char>)
    ensures
        !expired(store).contains(record_id),
        expired(expired(store)) == expired(store),
{
}

} // verus!
