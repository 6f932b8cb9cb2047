//! Entry-point discovery inside an extracted package directory.
//!
//! A fixed, ordered list of candidate file names — `main.ps1`, then
//! `main.au3` — is tried directly inside the package directory; the first
//! candidate present wins.  The caller hands in the names present in the
//! directory; no recursive search takes place.

use vstd::prelude::*;
use vstd::string::StringExecFns;
use crate::errors::InstallError;
use crate::paths::{join_path, join_dir};

verus! {

/// Whether one of the file names equals the sought name.
pub open spec fn has_name(files: Seq<String>, name: Seq<char>) -> bool {
    exists|i: int| 0 <= i < files.len() && #[trigger] files[i]@ == name
}

/// Whether the directory listing holds the given name.
fn contains_name(files: &Vec<String>, name: &str) -> (b: bool)
    ensures
        b == has_name(files@, name@),
{
    let sought = name.to_owned();
    let n = files.len();
    for i in 0..n
        invariant
            n == files@.len(),
            sought@ == name@,
            forall|j: int| 0 <= j < i ==> #[trigger] files@[j]@ != name@,
    {
        if files[i] == sought {
            return true;
        }
    }
    false
}

/// Finds a package's designated entry script: the first of `main.ps1` and
/// `main.au3` present directly in the package directory, as a joined path.
/// Fails with `NotFoundError` naming the directory when neither is there.
pub fn find_main_file(plugin_dir: &str, dir_files: &Vec<String>) -> (r: Result<
    String,
    InstallError,
>)
    ensures
        has_name(dir_files@, "main.ps1"@) ==> (r matches Ok(p) && p@ == join_path(
            plugin_dir@,
            "main.ps1"@,
        )),
        !has_name(dir_files@, "main.ps1"@) && has_name(dir_files@, "main.au3"@) ==> (r matches Ok(
            p,
        ) && p@ == join_path(plugin_dir@, "main.au3"@)),
        !has_name(dir_files@, "main.ps1"@) && !has_name(dir_files@, "main.au3"@) ==> (r matches Err(
            e,
        ) && e matches InstallError::NotFoundError(d) && d@ == plugin_dir@),
{
    if contains_name(dir_files, "main.ps1") {
        Ok(join_dir(plugin_dir, "main.ps1"))
    } else if contains_name(dir_files, "main.au3") {
        Ok(join_dir(plugin_dir, "main.au3"))
    } else {
        Err(InstallError::NotFoundError(plugin_dir.to_owned()))
    }
}

} // verus!
