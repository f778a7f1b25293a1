//! The transient data model: one directory entry as the enumerator sees
//! it, and one regular file under consideration for selection.

use vstd::prelude::*;

verus! {

/// Metadata of one directory entry, as far as the platform reported it.
#[derive(Clone, Copy, PartialEq, Eq, Structural)]
pub struct EntryMeta {
    /// Whether the entry is a regular file (neither a directory nor a
    /// special file).
    pub is_regular: bool,
    /// Creation timestamp, as a platform-native count; `None` when the
    /// platform cannot report a creation time for this entry.
    pub created: Option<u64>,
}

/// One directory entry as enumeration found it. `meta` is `None` when the
/// entry's metadata could not be read at all; such an entry is skipped.
pub struct RawEntry {
    /// The entry's file name.
    pub name: String,
    /// The entry's full path.
    pub path: String,
    /// The entry's metadata, where it was readable.
    pub meta: Option<EntryMeta>,
}

/// A regular file whose metadata was readable: a candidate for selection.
pub struct FileRecord {
    /// The file's name.
    pub name: String,
    /// The file's full path.
    pub path: String,
    /// The file's creation timestamp; `None` when the platform reported
    /// the metadata but no creation time.
    pub created: Option<u64>,
}

/// Mathematical image of a `RawEntry`.
#[verifier::ext_equal]
pub struct EntryView {
    pub name: Seq<char>,
    pub path: Seq<char>,
    pub meta: Option<EntryMeta>,
}

/// Mathematical image of a `FileRecord`.
#[verifier::ext_equal]
pub struct RecordView {
    pub name: Seq<char>,
    pub path: Seq<char>,
    pub created: Option<u64>,
}

/// The views of a sequence of entries, in order.
pub open spec fn entry_views(s: Seq<RawEntry>) -> Seq<EntryView> {
    s.map_values(|e: RawEntry| e@)
}

/// The views of a sequence of records, in order.
pub open spec fn record_views(s: Seq<FileRecord>) -> Seq<RecordView> {
    s.map_values(|f: FileRecord| f@)
}

impl View for RawEntry {
    type V = EntryView;

    open spec fn view(&self) -> EntryView {
        EntryView { name: self.name@, path: self.path@, meta: self.meta }
    }
}

impl View for FileRecord {
    type V = RecordView;

    open spec fn view(&self) -> RecordView {
        RecordView { name: self.name@, path: self.path@, created: self.created }
    }
}

} // verus!
