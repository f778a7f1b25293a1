//! The one linear operation, planned in full.
//!
//! From the directory's entries and the two options, one call decides the
//! whole run: which regular files are in play, which of them is the most
//! recently created, under which name and at which path its copy lands.
//! The surrounding program only reads the directory beforehand and
//! performs the copy afterwards.

use vstd::prelude::*;

use crate::copier::{destination_file_path, opt_str_view, spec_destination_path, CopyPlan};
use crate::enumerate::{filter_regular_files, kept_records};
use crate::outcome::ToolError;
use crate::record::{entry_views, record_views, RawEntry, RecordView};
use crate::select::{is_latest, select_latest};

verus! {

/// `p` plans the run over records `recs` with the two options: its source
/// is the most recently created record, reported under its own name, and
/// its destination path is built from the options.
pub open spec fn plan_matches(
    recs: Seq<RecordView>,
    i: int,
    override_name: Option<Seq<char>>,
    destination: Option<Seq<char>>,
    p: CopyPlan,
) -> bool {
    &&& is_latest(recs, i)
    &&& p.source_path@ == recs[i].path
    &&& p.original_name@ == recs[i].name
    &&& p.dest_path@ == spec_destination_path(recs[i].name, override_name, destination)
}

/// Plans one run: keeps the regular files with readable metadata among
/// `entries`, selects the most recently created, and builds the
/// destination path from the two options. Fails exactly when no such file
/// exists, with the terminal "no files found" condition.
pub fn plan_copy(
    entries: &Vec<RawEntry>,
    override_name: &Option<String>,
    destination: &Option<String>,
) -> (r: Result<CopyPlan, ToolError>)
    ensures
        ({
            let recs = kept_records(entry_views(entries@));
            &&& (r is Err <==> recs.len() == 0)
            &&& (r is Err ==> r == Result::<CopyPlan, ToolError>::Err(ToolError::NoFilesFound))
            &&& (r is Ok ==> exists|i: int|
                plan_matches(
                    recs,
                    i,
                    opt_str_view(*override_name),
                    opt_str_view(*destination),
                    r->Ok_0,
                ))
        }),
{
    let files = filter_regular_files(entries);
    let ghost recs = kept_records(entry_views(entries@));
    match select_latest(&files) {
        Err(e) => Err(e),
        Ok(i) => {
            let source = &files[i];
            let dest_path = destination_file_path(&source.name, override_name, destination);
            let p = CopyPlan {
                source_path: source.path.clone(),
                original_name: source.name.clone(),
                dest_path,
            };
            let res: Result<CopyPlan, ToolError> = Ok(p);
            proof {
                assert(recs[i as int] == record_views(files@)[i as int]);
                assert(plan_matches(
                    recs,
                    i as int,
                    opt_str_view(*override_name),
                    opt_str_view(*destination),
                    res->Ok_0,
                ));
            }
            res
        },
    }
}

} // verus!
