//! Selection of the most recently created file.
//!
//! Records are ordered by creation timestamp under one total key: a
//! record whose creation time could not be read sorts below every record
//! whose creation time is known. Among records that share the greatest
//! key, the last one in enumeration order is selected.

use vstd::prelude::*;

use crate::outcome::ToolError;
use crate::record::{record_views, FileRecord, RecordView};

verus! {

/// Total sort key of a creation timestamp: an unreadable creation time
/// orders strictly below every readable one.
pub open spec fn ts_key(created: Option<u64>) -> int {
    match created {
        Some(t) => t as int,
        None => -1,
    }
}

/// `i` is the index the selector returns for `recs`: no record has a
/// greater key, and every record after `i` has a strictly smaller one, so
/// that among records of equal key the last one wins.
pub open spec fn is_latest(recs: Seq<RecordView>, i: int) -> bool {
    &&& 0 <= i < recs.len()
    &&& forall|j: int| 0 <= j < recs.len() ==> ts_key(recs[j].created) <= ts_key(recs[i].created)
    &&& forall|j: int| i < j < recs.len() ==> ts_key(recs[j].created) < ts_key(recs[i].created)
}

/// Whether `a` sorts at least as late as `b`.
fn key_at_least(a: &Option<u64>, b: &Option<u64>) -> (r: bool)
    ensures
        r == (ts_key(*b) <= ts_key(*a)),
{
    match (a, b) {
        (Some(x), Some(y)) => *x >= *y,
        (Some(_), None) => true,
        (None, None) => true,
        (None, Some(_)) => false,
    }
}

/// Returns the index of the most recently created file: the record with
/// the greatest creation timestamp, the last such record when several
/// share it. An empty input is the terminal "no files found" condition.
pub fn select_latest(files: &Vec<FileRecord>) -> (r: Result<usize, ToolError>)
    ensures
        files@.len() == 0 <==> r is Err,
        r is Err ==> r == Result::<usize, ToolError>::Err(ToolError::NoFilesFound),
        r is Ok ==> is_latest(record_views(files@), r->Ok_0 as int),
{
    if files.len() == 0 {
        return Err(ToolError::NoFilesFound);
    }
    let mut best: usize = 0;
    let mut i: usize = 1;
    while i < files.len()
        invariant
            0 < files@.len(),
            best < i <= files@.len(),
            forall|j: int| 0 <= j < i ==> ts_key(files@[j].created) <= ts_key(
                files@[best as int].created,
            ),
            forall|j: int| best < j < i ==> ts_key(files@[j].created) < ts_key(
                files@[best as int].created,
            ),
        decreases files@.len() - i,
    {
        if key_at_least(&files[i].created, &files[best].created) {
            best = i;
        }
        i = i + 1;
    }
    proof {
        let recs = record_views(files@);
        assert forall|j: int| 0 <= j < recs.len() implies ts_key(recs[j].created) <= ts_key(
            recs[best as int].created,
        ) by {
            assert(recs[j] == files@[j]@);
        }
        assert forall|j: int| best < j < recs.len() implies ts_key(recs[j].created) < ts_key(
            recs[best as int].created,
        ) by {
            assert(recs[j] == files@[j]@);
        }
    }
    Ok(best)
}

/// The selector's answer is determined: at most one index of `recs`
/// satisfies `is_latest`.
pub proof fn lemma_latest_unique(recs: Seq<RecordView>, i: int, j: int)
    requires
        is_latest(recs, i),
        is_latest(recs, j),
    ensures
        i == j,
{
    if i < j {
        assert(ts_key(recs[j].created) < ts_key(recs[i].created));
        assert(ts_key(recs[i].created) <= ts_key(recs[j].created));
    }
    if j < i {
        assert(ts_key(recs[i].created) < ts_key(recs[j].created));
        assert(ts_key(recs[j].created) <= ts_key(recs[i].created));
    }
}

/// When every record's creation timestamp is readable and no two records
/// share one, the selected record is the strict maximum: every other
/// record was created strictly earlier.
pub proof fn lemma_distinct_readable_max(recs: Seq<RecordView>, i: int)
    requires
        is_latest(recs, i),
        forall|j: int| 0 <= j < recs.len() ==> recs[j].created is Some,
        forall|j: int, k: int|
            0 <= j < recs.len() && 0 <= k < recs.len() && j != k ==> recs[j].created
                != recs[k].created,
    ensures
        forall|j: int|
            0 <= j < recs.len() && j != i ==> recs[j].created->0 < recs[i].created->0,
{
    assert forall|j: int|
        0 <= j < recs.len() && j != i implies recs[j].created->0 < recs[i].created->0 by {
        assert(ts_key(recs[j].created) <= ts_key(recs[i].created));
        assert(recs[j].created != recs[i].created);
    }
}

} // verus!
