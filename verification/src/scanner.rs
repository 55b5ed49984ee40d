//! Counting the time buckets and the undersized captures of one day.

use vstd::prelude::*;
use vstd::string::*;
use crate::error::ScanError;
use crate::listing::{bucket_key, file_bucket_key, listing_view, DirectoryEntry, EntryView};
use crate::tray::SystemTray;

verus! {

/// What one scan found.
#[derive(Clone, Copy, Debug, PartialEq, Eq, Structural)]
pub struct ScanResult {
    /// Time buckets represented: a proxy for the minutes of activity.
    pub total_time_buckets: u64,
    /// Files under the size threshold: a proxy for blank captures.
    pub undersized_count: u64,
}

/// The bucket of an entry, where its name is readable and well-formed.
pub open spec fn entry_key(entry: EntryView) -> Option<Seq<char>> {
    match entry.name {
        Some(name) => bucket_key(name),
        None => None,
    }
}

/// The buckets of the entries that have one, in listing order.
pub open spec fn bucket_keys(files: Seq<EntryView>) -> Seq<Seq<char>>
    decreases files.len(),
{
    if files.len() == 0 {
        Seq::empty()
    } else {
        let rest = bucket_keys(files.drop_last());
        match entry_key(files.last()) {
            Some(key) => rest.push(key),
            None => rest,
        }
    }
}

/// The key against which the key at position `i` is compared: the one just
/// before it, or the empty key at the start.
pub open spec fn key_before(keys: Seq<Seq<char>>, i: int) -> Seq<char> {
    if i <= 0 {
        Seq::empty()
    } else {
        keys[i - 1]
    }
}

/// Whether the key at position `i` differs from the one before it.
pub open spec fn starts_bucket(keys: Seq<Seq<char>>, i: int) -> bool {
    keys[i] != key_before(keys, i)
}

/// The number of positions at which the key changes.
pub open spec fn count_buckets(keys: Seq<Seq<char>>) -> nat
    decreases keys.len(),
{
    if keys.len() == 0 {
        0
    } else {
        count_buckets(keys.drop_last()) + if starts_bucket(keys, keys.len() - 1) {
            1nat
        } else {
            0nat
        }
    }
}

/// Whether an entry's size is known and under the threshold.
pub open spec fn is_undersized(entry: EntryView, threshold: u64) -> bool {
    entry.size matches Some(size) && size < threshold
}

/// The number of entries under the threshold.
pub open spec fn count_undersized(files: Seq<EntryView>, threshold: u64) -> nat
    decreases files.len(),
{
    if files.len() == 0 {
        0
    } else {
        count_undersized(files.drop_last(), threshold) + if is_undersized(
            files.last(),
            threshold,
        ) {
            1nat
        } else {
            0nat
        }
    }
}

/// Whether the size of every entry could be read.
pub open spec fn all_sizes_known(files: Seq<EntryView>) -> bool {
    forall|i: int| 0 <= i < files.len() ==> (#[trigger] files[i]).size is Some
}

/// What a scan of `files` yields: both counts, or `IoError` where some size
/// is unknown.
pub open spec fn scan_outcome(files: Seq<EntryView>, threshold: u64) -> Result<
    ScanResult,
    ScanError,
> {
    if all_sizes_known(files) {
        Ok(
            ScanResult {
                total_time_buckets: count_buckets(bucket_keys(files)) as u64,
                undersized_count: count_undersized(files, threshold) as u64,
            },
        )
    } else {
        Err(ScanError::IoError)
    }
}

/// There are no more keys than entries, and no more buckets than keys.
pub proof fn lemma_buckets_bounded(files: Seq<EntryView>)
    ensures
        bucket_keys(files).len() <= files.len(),
        count_buckets(bucket_keys(files)) <= bucket_keys(files).len(),
    decreases files.len(),
{
    lemma_count_buckets_bounded(bucket_keys(files));
    if files.len() > 0 {
        lemma_buckets_bounded(files.drop_last());
    }
}

/// The key changes at most once per position.
pub proof fn lemma_count_buckets_bounded(keys: Seq<Seq<char>>)
    ensures
        count_buckets(keys) <= keys.len(),
    decreases keys.len(),
{
    if keys.len() > 0 {
        lemma_count_buckets_bounded(keys.drop_last());
    }
}

/// The positions of the entries that are under the threshold.
pub open spec fn undersized_positions(files: Seq<EntryView>, threshold: u64) -> Set<int> {
    Set::new(|i: int| 0 <= i < files.len() && is_undersized(files[i], threshold))
}

/// The undersized count is the number of entries whose size is under the
/// threshold: never negative, and never more than there are entries.
pub proof fn lemma_undersized_count(files: Seq<EntryView>, threshold: u64)
    ensures
        undersized_positions(files, threshold).finite(),
        count_undersized(files, threshold) == undersized_positions(files, threshold).len(),
        0 <= count_undersized(files, threshold) <= files.len(),
    decreases files.len(),
{
    if files.len() == 0 {
        assert(undersized_positions(files, threshold) =~= Set::empty());
    } else {
        let rest = files.drop_last();
        let last = files.len() - 1;
        lemma_undersized_count(rest, threshold);
        if is_undersized(files.last(), threshold) {
            assert(undersized_positions(files, threshold) =~= undersized_positions(
                rest,
                threshold,
            ).insert(last));
        } else {
            assert(undersized_positions(files, threshold) =~= undersized_positions(
                rest,
                threshold,
            ));
        }
    }
}

/// Whether equal keys stand next to each other: between two positions with
/// the same key, every position has that key.
pub open spec fn keys_grouped(keys: Seq<Seq<char>>) -> bool {
    forall|i: int, j: int, k: int|
        #![trigger keys[i], keys[j], keys[k]]
        0 <= i < j < k < keys.len() && keys[i] == keys[k] ==> keys[j] == keys[i]
}

/// Whether the keys come in runs that a count of changes tells apart: equal
/// keys stand next to each other, and the first key is not the empty key
/// that the count starts from.
pub open spec fn keys_in_runs(keys: Seq<Seq<char>>) -> bool {
    keys_grouped(keys) && (keys.len() > 0 ==> keys[0].len() > 0)
}

/// Where the keys come in runs, the number of buckets is the number of
/// distinct keys.
///
/// A key that returns after another is counted again, and a leading empty
/// key is not counted, so for other keys the two numbers may differ.
pub proof fn lemma_buckets_are_distinct_keys(keys: Seq<Seq<char>>)
    requires
        keys_in_runs(keys),
    ensures
        keys.to_set().finite(),
        count_buckets(keys) == keys.to_set().len(),
        count_buckets(keys) <= keys.len(),
    decreases keys.len(),
{
    lemma_count_buckets_bounded(keys);
    if keys.len() == 0 {
        assert(keys.to_set() =~= Set::empty());
    } else {
        let rest = keys.drop_last();
        let last = keys.len() - 1;
        let key = keys[last];
        assert forall|i: int, j: int, k: int|
            #![trigger rest[i], rest[j], rest[k]]
            0 <= i < j < k < rest.len() && rest[i] == rest[k] implies rest[j] == rest[i] by {
            assert(keys[i] == rest[i] && keys[j] == rest[j] && keys[k] == rest[k]);
        }
        if last == 0 {
            assert(rest.to_set() =~= Set::empty());
            assert(key != Seq::<char>::empty());
        } else {
            assert(rest[0] == keys[0]);
            lemma_buckets_are_distinct_keys(rest);
        }
        if starts_bucket(keys, last) {
            if rest.to_set().contains(key) {
                let i = choose|i: int| 0 <= i < rest.len() && rest[i] == key;
                assert(keys[i] == keys[last]);
                assert(keys[last - 1] == keys[i]);
            }
            assert forall|x: Seq<char>| keys.to_set().contains(x) <==> rest.to_set().insert(
                key,
            ).contains(x) by {
                if keys.contains(x) {
                    let i = choose|i: int| 0 <= i < keys.len() && keys[i] == x;
                    if i < last {
                        assert(rest[i] == x);
                    }
                }
                if rest.contains(x) {
                    let i = choose|i: int| 0 <= i < rest.len() && rest[i] == x;
                    assert(keys[i] == x);
                }
                assert(keys[last] == key);
            }
            assert(keys.to_set() =~= rest.to_set().insert(key));
        } else {
            assert(last > 0);
            assert(rest[last - 1] == key);
            assert forall|x: Seq<char>| keys.to_set().contains(x) <==> rest.to_set().contains(
                x,
            ) by {
                if keys.contains(x) {
                    let i = choose|i: int| 0 <= i < keys.len() && keys[i] == x;
                    if i < last {
                        assert(rest[i] == x);
                    }
                }
                if rest.contains(x) {
                    let i = choose|i: int| 0 <= i < rest.len() && rest[i] == x;
                    assert(keys[i] == x);
                }
            }
            assert(keys.to_set() =~= rest.to_set());
        }
    }
}

/// For a listing whose keys come in runs, the time buckets are the distinct
/// keys, and there are no more of them than files.
pub proof fn lemma_time_buckets_are_distinct_keys(files: Seq<EntryView>)
    requires
        keys_in_runs(bucket_keys(files)),
    ensures
        count_buckets(bucket_keys(files)) == bucket_keys(files).to_set().len(),
        bucket_keys(files).to_set().len() <= files.len(),
{
    lemma_buckets_are_distinct_keys(bucket_keys(files));
    lemma_buckets_bounded(files);
}

/// Two scans of the same files with the same threshold agree.
pub proof fn lemma_scan_repeatable(
    files: Seq<EntryView>,
    threshold: u64,
    first: Result<ScanResult, ScanError>,
    second: Result<ScanResult, ScanError>,
)
    requires
        first == scan_outcome(files, threshold),
        second == scan_outcome(files, threshold),
    ensures
        first == second,
{
}

impl SystemTray {
    /// Counts the time buckets and the undersized files of one day's listing.
    ///
    /// The files are taken in listing order. A file starts a new bucket when
    /// its key differs from the key of the file before it; a file without a
    /// readable, well-formed name has no key and is passed over for this
    /// count. A file is undersized when it is strictly smaller than
    /// `blank_max_filesize`. Where the size of any file is unknown the scan
    /// fails with `IoError`.
    ///
    /// Where the keys of the listing come in runs, the buckets are the
    /// distinct keys.
    pub fn get_count_last_hours_files_too_small(
        &self,
        files: &Vec<DirectoryEntry>,
        blank_max_filesize: u64,
    ) -> (r: Result<ScanResult, ScanError>)
        ensures
            r == scan_outcome(listing_view(files@), blank_max_filesize),
            r matches Ok(found) ==> {
                &&& found.total_time_buckets == count_buckets(bucket_keys(listing_view(files@)))
                &&& found.undersized_count == count_undersized(
                    listing_view(files@),
                    blank_max_filesize,
                )
                &&& found.undersized_count == undersized_positions(
                    listing_view(files@),
                    blank_max_filesize,
                ).len()
                &&& found.total_time_buckets <= files.len()
                &&& found.undersized_count <= files.len()
            },
            r matches Ok(found) ==> (keys_in_runs(bucket_keys(listing_view(files@)))
                ==> found.total_time_buckets == bucket_keys(listing_view(files@)).to_set().len()),
    {
        let ghost view = listing_view(files@);
        let mut total: u64 = 0;
        let mut undersized: u64 = 0;
        let mut prev = String::new();
        let mut i: usize = 0;
        while i < files.len()
            invariant
                i <= files.len(),
                view == listing_view(files@),
                forall|j: int| 0 <= j < i ==> (#[trigger] view[j]).size is Some,
                total == count_buckets(bucket_keys(view.take(i as int))),
                undersized == count_undersized(view.take(i as int), blank_max_filesize),
                prev@ == key_before(
                    bucket_keys(view.take(i as int)),
                    bucket_keys(view.take(i as int)).len() as int,
                ),
                total <= i,
                undersized <= i,
            decreases files.len() - i,
        {
            let entry = &files[i];
            let ghost before = bucket_keys(view.take(i as int));
            proof {
                assert(view.take(i + 1).drop_last() =~= view.take(i as int));
                assert(view.take(i + 1).last() == entry@);
            }
            let size: u64 = match entry.size {
                Some(size) => size,
                None => {
                    assert(view[i as int].size is None);
                    return Err(ScanError::IoError);
                },
            };
            match &entry.name {
                Some(name) => {
                    match file_bucket_key(name.as_str()) {
                        Ok(key) => {
                            proof {
                                assert(before.push(key@).drop_last() =~= before);
                            }
                            if !(key == prev) {
                                total = total + 1;
                                prev = key;
                            }
                        },
                        Err(_) => {},
                    }
                },
                None => {},
            }
            if size < blank_max_filesize {
                undersized = undersized + 1;
            }
            i = i + 1;
        }
        proof {
            assert(view.take(i as int) =~= view);
            lemma_undersized_count(view, blank_max_filesize);
            let keys = bucket_keys(view);
            if keys_in_runs(keys) {
                lemma_buckets_are_distinct_keys(keys);
            }
        }
        Ok(ScanResult { total_time_buckets: total, undersized_count: undersized })
    }
}

} // verus!
