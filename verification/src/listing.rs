//! Directory listings, and the time bucket that a capture's file name stands for.

use vstd::prelude::*;
use vstd::string::*;
use crate::error::ScanError;

verus! {

/// One entry of a directory, as far as a scan looks at it.
#[derive(Clone, Debug, PartialEq, Eq)]
pub struct DirectoryEntry {
    /// The entry's name; `None` where the name is not valid Unicode.
    pub name: Option<String>,
    /// The entry's full path.
    pub path: String,
    /// The size in bytes; `None` where the metadata could not be read.
    pub size: Option<u64>,
}

/// What a [`DirectoryEntry`] holds, as mathematical values.
pub struct EntryView {
    pub name: Option<Seq<char>>,
    pub path: Seq<char>,
    pub size: Option<u64>,
}

impl View for DirectoryEntry {
    type V = EntryView;

    open spec fn view(&self) -> EntryView {
        EntryView {
            name: match self.name {
                Some(n) => Some(n@),
                None => None,
            },
            path: self.path@,
            size: self.size,
        }
    }
}

/// The entries of a listing, each by its view, in listing order.
pub open spec fn listing_view(entries: Seq<DirectoryEntry>) -> Seq<EntryView> {
    Seq::new(entries.len(), |i: int| entries[i]@)
}

/// The position of the first `.` at or after `from`, or the length of `name`
/// where there is none.
pub open spec fn segment_end(name: Seq<char>, from: int) -> int
    decreases name.len() - from,
{
    if from < 0 || from >= name.len() {
        name.len() as int
    } else if name[from] == '.' {
        from
    } else {
        segment_end(name, from + 1)
    }
}

/// The time bucket of a file name: its first two dot-separated parts, joined.
/// By convention these are the hour and the minute of the capture. A name
/// without a dot has only one part, and no bucket.
pub open spec fn bucket_key(name: Seq<char>) -> Option<Seq<char>> {
    let first = segment_end(name, 0);
    if first >= name.len() {
        None
    } else {
        let second = segment_end(name, first + 1);
        Some(name.subrange(0, first) + name.subrange(first + 1, second))
    }
}

/// `segment_end` finds a dot, and the first one.
pub proof fn lemma_segment_end(name: Seq<char>, from: int)
    requires
        0 <= from <= name.len(),
    ensures
        from <= segment_end(name, from) <= name.len(),
        segment_end(name, from) < name.len() ==> name[segment_end(name, from)] == '.',
        forall|i: int| from <= i < segment_end(name, from) ==> name[i] != '.',
    decreases name.len() - from,
{
    if from < name.len() && name[from] != '.' {
        lemma_segment_end(name, from + 1);
    }
}

fn find_segment_end(name: &str, from: usize, len: usize) -> (end: usize)
    requires
        len == name@.len(),
        from <= len,
    ensures
        end == segment_end(name@, from as int),
{
    let mut i: usize = from;
    while i < len
        invariant
            from <= i <= len,
            len == name@.len(),
            segment_end(name@, i as int) == segment_end(name@, from as int),
        decreases len - i,
    {
        if name.get_char(i) == '.' {
            return i;
        }
        i += 1;
    }
    i
}

/// Derives the time bucket of a capture from its file name.
///
/// Fails with `MalformedEntry` exactly when the name holds no dot.
pub fn file_bucket_key(name: &str) -> (r: Result<String, ScanError>)
    ensures
        match r {
            Ok(key) => bucket_key(name@) == Some(key@),
            Err(e) => e == ScanError::MalformedEntry && bucket_key(name@) is None,
        },
{
    let len: usize = name.unicode_len();
    let first: usize = find_segment_end(name, 0, len);
    if first >= len {
        return Err(ScanError::MalformedEntry);
    }
    let second: usize = find_segment_end(name, first + 1, len);
    proof {
        lemma_segment_end(name@, first + 1);
    }
    let key = String::from_str(name.substring_char(0, first));
    let key = key.concat(name.substring_char(first + 1, second));
    Ok(key)
}

} // verus!
