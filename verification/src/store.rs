//! The entry store: the sentinel, then the kept entries in the order in which
//! they were added.

use vstd::prelude::*;
use crate::entry::{Entry, EntryView};

verus! {

/// The label of the sentinel, the entry that commits the current evaluation.
pub const SENTINEL_LABEL: &'static str = "Add to history";

/// The sentinel as plain text.
pub open spec fn sentinel() -> EntryView {
    EntryView { input: SENTINEL_LABEL@, output: SENTINEL_LABEL@ }
}

/// `entries` can be the contents of a store: the sentinel comes first.
pub open spec fn is_store(entries: Seq<EntryView>) -> bool {
    entries.len() >= 1 && entries[0] == sentinel()
}

/// `entries` after an entry of `input` and `output` was added.
pub open spec fn appended(entries: Seq<EntryView>, input: Seq<char>, output: Seq<char>) -> Seq<
    EntryView,
> {
    entries.push(EntryView { input, output })
}

/// `entries` after a request to remove the one at `index`: the sentinel stays,
/// and so does everything when there is no entry at `index`.
pub open spec fn removed(entries: Seq<EntryView>, index: int) -> Seq<EntryView> {
    if 0 < index < entries.len() {
        entries.remove(index)
    } else {
        entries
    }
}

/// An entry that was just added is the last one and holds what was given; the
/// entries that were there keep their places.
pub proof fn lemma_append_then_last(entries: Seq<EntryView>, input: Seq<char>, output: Seq<char>)
    ensures
        appended(entries, input, output).len() == entries.len() + 1,
        appended(entries, input, output).last() == (EntryView { input, output }),
        forall|i: int|
            0 <= i < entries.len() ==> #[trigger] appended(entries, input, output)[i] == entries[i],
        is_store(entries) ==> is_store(appended(entries, input, output)),
{
}

/// Removing an entry behind the sentinel makes the store one shorter: the
/// entries before it stay where they are, those behind it move down by one.
pub proof fn lemma_remove_shifts_down(entries: Seq<EntryView>, index: int)
    requires
        is_store(entries),
        0 < index < entries.len(),
    ensures
        removed(entries, index).len() == entries.len() - 1,
        forall|i: int| 0 <= i < index ==> #[trigger] removed(entries, index)[i] == entries[i],
        forall|i: int|
            index <= i < entries.len() - 1 ==> #[trigger] removed(entries, index)[i] == entries[i
                + 1],
        is_store(removed(entries, index)),
{
}

/// A request to remove the sentinel, or an entry that is not there, changes
/// nothing.
pub proof fn lemma_remove_refused(entries: Seq<EntryView>, index: int)
    requires
        index <= 0 || index >= entries.len(),
    ensures
        removed(entries, index) == entries,
{
}

/// Why the store refused a request.
#[derive(Debug, Clone, Copy, PartialEq, Eq, Structural)]
pub enum StoreError {
    /// There is no entry at the index.
    IndexOutOfRange,
    /// The sentinel cannot be removed.
    InvalidOperation,
}

/// The sentinel at index 0, then the kept entries.
pub struct EntryStore {
    entries: Vec<Entry>,
}

impl View for EntryStore {
    type V = Seq<EntryView>;

    closed spec fn view(&self) -> Seq<EntryView> {
        self.entries@.map_values(|entry: Entry| entry@)
    }
}

impl EntryStore {
    /// The store is well formed: the sentinel stands at index 0. A new store
    /// is, and no operation makes a well-formed store ill-formed.
    pub open spec fn wf(&self) -> bool {
        is_store(self@)
    }

    /// A store that holds the sentinel only.
    pub fn new() -> (store: EntryStore)
        ensures
            store.wf(),
            store@ == seq![sentinel()],
    {
        let mut entries: Vec<Entry> = Vec::new();
        entries.push(Entry::new(SENTINEL_LABEL.to_owned(), SENTINEL_LABEL.to_owned()));
        EntryStore { entries }
    }

    /// The number of entries, the sentinel included.
    pub fn count(&self) -> (count: usize)
        ensures
            count == self@.len(),
            self.wf() ==> count >= 1,
    {
        self.entries.len()
    }

    /// Whether `index` is the sentinel's.
    pub fn is_sentinel(&self, index: usize) -> (yes: bool)
        ensures
            yes == (index == 0),
    {
        index == 0
    }

    /// The entry at `index`.
    pub fn get(&self, index: usize) -> (found: Result<&Entry, StoreError>)
        ensures
            index < self@.len() ==> (found matches Ok(entry) && entry@ == self@[index as int]),
            index >= self@.len() ==> found == Err::<&Entry, StoreError>(
                StoreError::IndexOutOfRange,
            ),
    {
        if index < self.entries.len() {
            Ok(&self.entries[index])
        } else {
            Err(StoreError::IndexOutOfRange)
        }
    }

    /// Adds an entry of `input` and `output` behind all others.
    pub fn append(&mut self, input: String, output: String)
        ensures
            final(self)@ == appended(old(self)@, input@, output@),
            old(self).wf() ==> final(self).wf(),
    {
        self.entries.push(Entry::new(input, output));
        assert(self@ =~= appended(old(self)@, input@, output@));
    }

    /// Removes the entry at `index` and hands it out; the entries behind it
    /// move down by one. The sentinel is never removed.
    pub fn remove(&mut self, index: usize) -> (taken: Result<Entry, StoreError>)
        ensures
            final(self)@ == removed(old(self)@, index as int),
            old(self).wf() ==> final(self).wf(),
            index == 0 ==> taken == Err::<Entry, StoreError>(StoreError::InvalidOperation),
            index != 0 && index >= old(self)@.len() ==> taken == Err::<Entry, StoreError>(
                StoreError::IndexOutOfRange,
            ),
            0 < index < old(self)@.len() ==> (taken matches Ok(entry)
                && entry@ == old(self)@[index as int]),
    {
        if index == 0 {
            return Err(StoreError::InvalidOperation);
        }
        if index >= self.entries.len() {
            return Err(StoreError::IndexOutOfRange);
        }
        let entry = self.entries.remove(index);
        assert(self@ =~= old(self)@.remove(index as int));
        Ok(entry)
    }
}

} // verus!
