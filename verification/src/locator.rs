//! Finding today's directory among the entries of the root directory.

use vstd::prelude::*;
use vstd::string::*;
use crate::error::ScanError;
use crate::listing::{listing_view, DirectoryEntry, EntryView};
use crate::tray::SystemTray;

verus! {

/// Whether an entry's name is readable and equals `label`.
pub open spec fn is_named(entry: EntryView, label: Seq<char>) -> bool {
    entry.name == Some(label)
}

/// Whether the entry at position `i` is named `label` and no other entry is.
pub open spec fn only_match(entries: Seq<EntryView>, label: Seq<char>, i: int) -> bool {
    &&& 0 <= i < entries.len()
    &&& is_named(entries[i], label)
    &&& forall|j: int| 0 <= j < entries.len() && is_named(#[trigger] entries[j], label) ==> j == i
}

/// Whether exactly one entry is named `label`.
pub open spec fn has_only_match(entries: Seq<EntryView>, label: Seq<char>) -> bool {
    exists|i: int| only_match(entries, label, i)
}

/// The position of the one entry named `label`, where there is exactly one.
pub open spec fn located(entries: Seq<EntryView>, label: Seq<char>) -> Option<int> {
    if has_only_match(entries, label) {
        Some(choose|i: int| only_match(entries, label, i))
    } else {
        None
    }
}

/// At most one position is the only match.
pub proof fn lemma_only_match_unique(entries: Seq<EntryView>, label: Seq<char>, i: int, j: int)
    requires
        only_match(entries, label, i),
        only_match(entries, label, j),
    ensures
        i == j,
        located(entries, label) == Some(i),
{
    let k = choose|k: int| only_match(entries, label, k);
    assert(is_named(entries[k], label));
    assert(is_named(entries[i], label));
}

/// Returns the one entry whose name equals `label`.
///
/// Fails with `DirectoryNotFound` when no entry has that name, and when more
/// than one has it.
pub fn find_directory<'a>(entries: &'a Vec<DirectoryEntry>, label: &str) -> (r: Result<
    &'a DirectoryEntry,
    ScanError,
>)
    ensures
        match r {
            Ok(entry) => located(listing_view(entries@), label@) matches Some(i) && *entry
                == entries@[i],
            Err(e) => e == ScanError::DirectoryNotFound && located(listing_view(entries@), label@)
                is None,
        },
{
    let ghost view = listing_view(entries@);
    let wanted = String::from_str(label);
    let mut found: Option<usize> = None;
    let mut i: usize = 0;
    while i < entries.len()
        invariant
            i <= entries.len(),
            view == listing_view(entries@),
            wanted@ == label@,
            match found {
                Some(at) => at < i && is_named(view[at as int], label@) && forall|j: int|
                    0 <= j < i && is_named(#[trigger] view[j], label@) ==> j == at,
                None => forall|j: int| 0 <= j < i ==> !is_named(#[trigger] view[j], label@),
            },
        decreases entries.len() - i,
    {
        let named: bool = match &entries[i].name {
            Some(name) => *name == wanted,
            None => false,
        };
        assert(named == is_named(view[i as int], label@));
        if named {
            match found {
                Some(at) => {
                    proof {
                        assert forall|k: int| !only_match(view, label@, k) by {
                            if only_match(view, label@, k) {
                                assert(is_named(view[at as int], label@));
                                assert(is_named(view[i as int], label@));
                            }
                        }
                    }
                    return Err(ScanError::DirectoryNotFound);
                },
                None => {
                    found = Some(i);
                },
            }
        }
        i = i + 1;
    }
    match found {
        Some(at) => {
            proof {
                assert(only_match(view, label@, at as int));
                lemma_only_match_unique(view, label@, at as int, at as int);
            }
            Ok(&entries[at])
        },
        None => {
            proof {
                assert forall|k: int| !only_match(view, label@, k) by {
                    if only_match(view, label@, k) {
                        assert(is_named(view[k], label@));
                    }
                }
            }
            Err(ScanError::DirectoryNotFound)
        },
    }
}

/// `chrono::Utc::now` and `chrono::DateTime::format` with the pattern
/// `%Y-%m-%d`: the current date in UTC, written as text. The text depends on
/// the system clock, so nothing is claimed of it. chrono stops the program
/// where the clock stands before the year 1970.
#[verifier::external_body]
pub(crate) fn todays_date_as_string() -> (label: String) {
    chrono::Utc::now().format("%Y-%m-%d").to_string()
}

impl SystemTray {
    /// Returns the entry named after today's date in UTC.
    ///
    /// The date is read from the system clock, so the contract states what
    /// holds whatever the date is: an entry that is returned is the only one
    /// of its name, and the only failure is `DirectoryNotFound`.
    /// [`find_directory`] says what is returned for each date.
    pub fn get_todays_directory_path<'a>(&self, entries: &'a Vec<DirectoryEntry>) -> (r: Result<
        &'a DirectoryEntry,
        ScanError,
    >)
        ensures
            match r {
                Ok(entry) => exists|i: int, label: Seq<char>|
                    only_match(listing_view(entries@), label, i) && *entry == entries@[i],
                Err(e) => e == ScanError::DirectoryNotFound,
            },
    {
        let label = todays_date_as_string();
        let r = find_directory(entries, label.as_str());
        proof {
            if let Ok(entry) = r {
                let i = located(listing_view(entries@), label@)->0;
                assert(only_match(listing_view(entries@), label@, i));
            }
        }
        r
    }
}

} // verus!
