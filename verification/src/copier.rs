//! Resolution of the copy's destination.
//!
//! The copy carries the name the user asked for, or the source file's own
//! name; it lands in the directory the user asked for, or in the current
//! working directory, written `.`. The destination file path joins the
//! two with a path separator. Copying the bytes themselves is the
//! surrounding program's task.

use vstd::prelude::*;

verus! {

/// The view of an optional string option.
pub open spec fn opt_str_view(o: Option<String>) -> Option<Seq<char>> {
    match o {
        Some(s) => Some(s@),
        None => None,
    }
}

/// The name the copy carries at the destination: the override when one
/// was given, the source file's own name otherwise.
pub open spec fn spec_chosen_name(original: Seq<char>, override_name: Option<Seq<char>>) -> Seq<
    char,
> {
    match override_name {
        Some(n) => n,
        None => original,
    }
}

/// The directory the copy lands in: the one given, or the current working
/// directory otherwise.
pub open spec fn spec_destination_dir(destination: Option<Seq<char>>) -> Seq<char> {
    match destination {
        Some(d) => d,
        None => "."@,
    }
}

/// The destination file path: destination directory and chosen file name
/// joined by a path separator.
pub open spec fn spec_destination_path(
    original: Seq<char>,
    override_name: Option<Seq<char>>,
    destination: Option<Seq<char>>,
) -> Seq<char> {
    spec_destination_dir(destination) + "/"@ + spec_chosen_name(original, override_name)
}

/// With no destination given, the copy lands in the current working
/// directory: its path is `.`, a separator, and the original or
/// overridden file name.
pub proof fn lemma_default_destination(original: Seq<char>, override_name: Option<Seq<char>>)
    ensures
        spec_destination_path(original, override_name, None) == "."@ + "/"@ + spec_chosen_name(
            original,
            override_name,
        ),
{
}

/// Everything the copy step needs: where the bytes come from, the name to
/// report the source under, and the full path they go to.
#[derive(Debug)]
pub struct CopyPlan {
    /// The selected file's path.
    pub source_path: String,
    /// The selected file's own name, reported alongside the destination.
    pub original_name: String,
    /// The full path of the destination file.
    pub dest_path: String,
}

/// Returns the name the copy carries at the destination.
pub fn chosen_name(original: &String, override_name: &Option<String>) -> (r: String)
    ensures
        r@ == spec_chosen_name(original@, opt_str_view(*override_name)),
{
    match override_name {
        Some(n) => n.clone(),
        None => original.clone(),
    }
}

/// Returns the directory the copy lands in.
pub fn destination_dir(destination: &Option<String>) -> (r: String)
    ensures
        r@ == spec_destination_dir(opt_str_view(*destination)),
{
    match destination {
        Some(d) => d.clone(),
        None => String::from_str("."),
    }
}

/// Builds the destination file path, defaulting the directory to the
/// current working directory and the name to the source file's name.
pub fn destination_file_path(
    original: &String,
    override_name: &Option<String>,
    destination: &Option<String>,
) -> (r: String)
    ensures
        r@ == spec_destination_path(
            original@,
            opt_str_view(*override_name),
            opt_str_view(*destination),
        ),
{
    let mut r = destination_dir(destination);
    r.append("/");
    let name = chosen_name(original, override_name);
    r.append(name.as_str());
    r
}

} // verus!
