//! Decisions of an import of a collection: which files are new since the
//! last import, and the time the collection is marked as imported up to.
use vstd::prelude::*;
use crate::paths::{path_strip_prefix, spec_path_strip_prefix};

verus! {

/// The later of two optional times; any time is later than none.
pub open spec fn later_spec(a: Option<u128>, b: Option<u128>) -> Option<u128> {
    match (a, b) {
        (None, _) => b,
        (_, None) => a,
        (Some(x), Some(y)) => Some(if x >= y { x } else { y }),
    }
}

/// The later of two optional times, in nanoseconds since the epoch.
pub fn later(a: Option<u128>, b: Option<u128>) -> (latest: Option<u128>)
    ensures
        latest == later_spec(a, b),
{
    match (a, b) {
        (None, _) => b,
        (_, None) => a,
        (Some(x), Some(y)) => Some(if x >= y { x } else { y }),
    }
}

/// Whether a file (or directory) is visited by an import: any file when the
/// collection was never imported, else one created or modified after the
/// last import.
pub fn is_newer(created: u128, modified: u128, last_import: Option<u128>) -> (newer: bool)
    ensures
        newer == match last_import {
            None => true,
            Some(last) => (if created >= modified { created } else { modified }) > last,
        },
{
    match last_import {
        None => true,
        Some(last) => {
            let latest = if created >= modified { created } else { modified };
            latest > last
        },
    }
}

/// The time of the last import as the database holds it (nanoseconds in a
/// signed 64-bit value), read back as nanoseconds since the epoch.
pub fn last_import_nanos(modified: Option<i64>) -> (nanos: Option<u128>)
    ensures
        nanos == match modified {
            None => None::<u128>,
            Some(m) => Some((m as u64) as u128),
        },
{
    match modified {
        None => None,
        Some(m) => Some((m as u64) as u128),
    }
}

/// The time an import is stored as: its nanoseconds since the epoch as a
/// signed 64-bit value.
pub fn stored_import_time(nanos: u128) -> (stored: i64)
    ensures
        stored == nanos as i64,
{
    nanos as i64
}

/// The time of a file for an import: the later of its creation and its
/// last modification.
pub open spec fn file_time(times: (u128, u128)) -> u128 {
    if times.0 >= times.1 { times.0 } else { times.1 }
}

/// Whether a file with these times is newer than the last import.
pub open spec fn newer_than(times: (u128, u128), last_import: Option<u128>) -> bool {
    match last_import {
        None => true,
        Some(last) => file_time(times) > last,
    }
}

/// The time an import is marked with: the latest time of the files it
/// imported, none when it imported none.
pub open spec fn import_mark_spec(files: Seq<(u128, u128)>) -> Option<u128>
    decreases files.len(),
{
    if files.len() == 0 {
        None
    } else {
        later_spec(import_mark_spec(files.drop_last()), Some(file_time(files.last())))
    }
}

/// The time an import is marked with, from the (creation, modification)
/// times of the files it imported, in nanoseconds since the epoch.
pub fn import_mark(files: &Vec<(u128, u128)>) -> (mark: Option<u128>)
    ensures
        mark == import_mark_spec(files@),
        files@.len() == 0 <==> mark is None,
        forall|i: int| 0 <= i < files@.len() ==> (mark matches Some(m) && (#[trigger] files@[i]).0 <= m
            && files@[i].1 <= m),
        mark matches Some(m) ==> exists|i: int| 0 <= i < files@.len() && ((#[trigger] files@[i]).0 == m
            || files@[i].1 == m),
{
    proof { law_import_mark_is_latest_time(files@); }
    let mut mark: Option<u128> = None;
    let mut i: usize = 0;
    while i < files.len()
        invariant
            i <= files@.len(),
            mark == import_mark_spec(files@.take(i as int)),
        decreases files@.len() - i,
    {
        proof {
            assert(files@.take(i + 1).drop_last() =~= files@.take(i as int));
            assert(files@.take(i + 1).last() == files@[i as int]);
        }
        let (created, modified) = files[i];
        mark = later(mark, later(Some(created), Some(modified)));
        i = i + 1;
    }
    assert(files@.take(files@.len() as int) =~= files@);
    mark
}

/// The mark of an import is no earlier than the creation or modification of
/// any file it imported, and is one of those times; there is none exactly
/// when no file was imported.
pub proof fn law_import_mark_is_latest_time(files: Seq<(u128, u128)>)
    ensures
        files.len() == 0 <==> import_mark_spec(files) is None,
        forall|i: int| 0 <= i < files.len() ==> (import_mark_spec(files) matches Some(m) && (
        #[trigger] files[i]).0 <= m && files[i].1 <= m),
        import_mark_spec(files) matches Some(m) ==> exists|i: int| 0 <= i < files.len() && ((#[trigger] files[i]).0
            == m || files[i].1 == m),
    decreases files.len(),
{
    if files.len() > 0 {
        let init = files.drop_last();
        law_import_mark_is_latest_time(init);
        let n = files.len() - 1;
        assert forall|i: int| 0 <= i < files.len() implies import_mark_spec(files) matches Some(m) && (
        #[trigger] files[i]).0 <= m && files[i].1 <= m by {
            if i < n {
                assert(init[i] == files[i]);
            }
        }
        let m = import_mark_spec(files)->0;
        if m == file_time(files[n]) {
            assert(files[n].0 == m || files[n].1 == m);
        } else {
            let k = choose|k: int| 0 <= k < init.len() && ((#[trigger] init[k]).0 == m || init[k].1 == m);
            assert(files[k] == init[k]);
        }
    }
}

/// An import that imported any file, all of them newer than the last import,
/// is marked later than the last import: the next import does not visit its
/// files again unless they change.
pub proof fn law_import_mark_advances(files: Seq<(u128, u128)>, last: u128)
    requires
        files.len() > 0,
        forall|i: int| 0 <= i < files.len() ==> newer_than(#[trigger] files[i], Some(last)),
    ensures
        import_mark_spec(files) matches Some(m) && m > last,
    decreases files.len(),
{
    assert(newer_than(files[files.len() - 1], Some(last)));
    if files.len() > 1 {
        let rest = files.drop_last();
        assert forall|i: int| 0 <= i < rest.len() implies newer_than(#[trigger] rest[i], Some(last)) by {
            assert(rest[i] == files[i]);
        }
        law_import_mark_advances(rest, last);
    }
}

/// The path a song is stored under: that of its file relative to its
/// collection's directory; none when the file lies outside it.
pub fn relative_song_path(file: &str, collection_path: &str) -> (path: Option<String>)
    ensures
        path matches Some(p) ==> spec_path_strip_prefix(file@, collection_path@) == Some(p@),
        path is None ==> spec_path_strip_prefix(file@, collection_path@) is None,
{
    path_strip_prefix(file, collection_path)
}

/// The order in which the files of an import are met does not change the
/// time the import is marked with.
pub proof fn law_later_commutes(a: Option<u128>, b: Option<u128>)
    ensures
        later_spec(a, b) == later_spec(b, a),
{
}

/// Folding the times of the files in any grouping gives the same mark.
pub proof fn law_later_associates(a: Option<u128>, b: Option<u128>, c: Option<u128>)
    ensures
        later_spec(later_spec(a, b), c) == later_spec(a, later_spec(b, c)),
{
}

/// The mark of an import is no earlier than any file it met.
pub proof fn law_later_bounds(a: Option<u128>, b: Option<u128>)
    ensures
        a matches Some(x) ==> later_spec(a, b) matches Some(y) && x <= y,
        b matches Some(x) ==> later_spec(a, b) matches Some(y) && x <= y,
{
}

} // verus!
