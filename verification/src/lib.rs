//! Plans the copy of the most recently created file in a directory.
//!
//! Given the entries of a directory (a download folder, typically), the
//! library keeps the regular files whose metadata was readable, selects
//! the one with the greatest creation timestamp, and builds the
//! destination path the copy goes to, under an optional new name and in
//! an optional destination directory. It also fixes which process status
//! class each failure terminates with. Reading the directory, copying the
//! bytes and talking to the console are left to the surrounding program.

pub mod copier;
pub mod enumerate;
pub mod outcome;
pub mod plan;
pub mod record;
pub mod select;
