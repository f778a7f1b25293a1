//! Enumeration of the files under consideration.
//!
//! Of a directory's entries, the enumerator keeps exactly the regular
//! files whose metadata was readable, in enumeration order. An entry
//! whose metadata could not be read is skipped, never fatal.

use vstd::prelude::*;

use crate::record::{entry_views, record_views, EntryView, FileRecord, RawEntry, RecordView};

verus! {

/// Whether the enumerator keeps a directory entry: its metadata was
/// readable and it is a regular file.
pub open spec fn keeps(e: EntryView) -> bool {
    e.meta is Some && e.meta->0.is_regular
}

/// The record a kept entry turns into.
pub open spec fn record_of(e: EntryView) -> RecordView {
    RecordView { name: e.name, path: e.path, created: e.meta->0.created }
}

/// The records of the kept entries, in enumeration order.
pub open spec fn kept_records(s: Seq<EntryView>) -> Seq<RecordView>
    decreases s.len(),
{
    if s.len() == 0 {
        Seq::empty()
    } else if keeps(s.last()) {
        kept_records(s.drop_last()).push(record_of(s.last()))
    } else {
        kept_records(s.drop_last())
    }
}

/// Keeps every entry that is a regular file with readable metadata, as a
/// record, in enumeration order; every other entry is skipped.
pub fn filter_regular_files(entries: &Vec<RawEntry>) -> (r: Vec<FileRecord>)
    ensures
        record_views(r@) == kept_records(entry_views(entries@)),
{
    let ghost s = entry_views(entries@);
    let mut out: Vec<FileRecord> = Vec::new();
    let mut i: usize = 0;
    while i < entries.len()
        invariant
            i <= entries@.len(),
            s == entry_views(entries@),
            record_views(out@) == kept_records(s.take(i as int)),
        decreases entries@.len() - i,
    {
        let entry = &entries[i];
        proof {
            assert(s.take(i + 1).drop_last() =~= s.take(i as int));
            assert(s.take(i + 1).last() == entry@);
        }
        match entry.meta {
            Some(m) => {
                if m.is_regular {
                    let rec = FileRecord {
                        name: entry.name.clone(),
                        path: entry.path.clone(),
                        created: m.created,
                    };
                    proof {
                        assert(rec@ == record_of(entry@));
                    }
                    out.push(rec);
                    proof {
                        assert(record_views(out@) =~= kept_records(s.take(i + 1)));
                    }
                } else {
                    proof {
                        assert(record_views(out@) =~= kept_records(s.take(i + 1)));
                    }
                }
            },
            None => {
                proof {
                    assert(record_views(out@) =~= kept_records(s.take(i + 1)));
                }
            },
        }
        i = i + 1;
    }
    proof {
        assert(s.take(entries@.len() as int) =~= s);
    }
    out
}

/// A directory of entries whose metadata is unreadable throughout yields
/// no record at all: nothing exists there for the selector to return.
pub proof fn lemma_all_unreadable_keeps_nothing(s: Seq<EntryView>)
    requires
        forall|j: int| 0 <= j < s.len() ==> s[j].meta is None,
    ensures
        kept_records(s) == Seq::<RecordView>::empty(),
    decreases s.len(),
{
    if s.len() > 0 {
        assert(!keeps(s.last()));
        lemma_all_unreadable_keeps_nothing(s.drop_last());
    }
}

} // verus!
