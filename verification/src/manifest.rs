//! Typed manifests and entry resolution.
//!
//! A plugin manifest is an ordered list of entries with an `id` and a `file`
//! field; a software manifest is an ordered list of entries with a `name` and
//! a `url` field.  Resolution walks the list in manifest order and returns
//! the first match: exact and case-sensitive on `id` or `file` for plugins,
//! case-insensitive on `name` for software.

use vstd::prelude::*;
use crate::errors::InstallError;
use crate::fold::{lower_of, to_lowercase};

verus! {

/// One row of a plugin manifest: a stable identifier and the archive base
/// name, which doubles as the extraction directory name.
#[derive(Debug, Clone, PartialEq, Eq)]
pub struct ManifestEntry {
    pub id: String,
    pub file: String,
}

/// A parsed plugin manifest: the ordered `files` sequence.
#[derive(Debug, Clone, PartialEq, Eq)]
pub struct Manifest {
    pub files: Vec<ManifestEntry>,
}

/// One row of a software manifest: a display name, matched without regard
/// to letter case, and a direct download URL for an installer.
#[derive(Debug, Clone, PartialEq, Eq)]
pub struct AppEntry {
    pub name: String,
    pub url: String,
}

/// A parsed software manifest: the ordered `apps` sequence.
#[derive(Debug, Clone, PartialEq, Eq)]
pub struct AppsManifest {
    pub apps: Vec<AppEntry>,
}

/// A plugin entry matches a query exactly on its `id` or its `file` field.
pub open spec fn plugin_matches(e: ManifestEntry, q: Seq<char>) -> bool {
    e.id@ == q || e.file@ == q
}

/// No entry among the first `n` matches the query.
pub open spec fn no_plugin_match_upto(files: Seq<ManifestEntry>, q: Seq<char>, n: int) -> bool {
    forall|j: int| 0 <= j < n ==> !plugin_matches(#[trigger] files[j], q)
}

/// An app entry matches a query when their case-folded names are equal.
pub open spec fn app_matches(e: AppEntry, folded_query: Seq<char>) -> bool {
    lower_of(e.name@) == folded_query
}

/// No entry among the first `n` matches the case-folded query.
pub open spec fn no_app_match_upto(apps: Seq<AppEntry>, folded_query: Seq<char>, n: int) -> bool {
    forall|j: int| 0 <= j < n ==> !app_matches(#[trigger] apps[j], folded_query)
}

/// A manifest row — an id/file pair as the parser names it — matches a
/// plugin query exactly on either field.
pub open spec fn row_matches_plugin(row: (Seq<char>, Seq<char>), q: Seq<char>) -> bool {
    row.0 == q || row.1 == q
}

/// No row among the first `n` matches the plugin query.
pub open spec fn no_plugin_row_match_upto(
    rows: Seq<(Seq<char>, Seq<char>)>,
    q: Seq<char>,
    n: int,
) -> bool {
    forall|j: int| 0 <= j < n ==> !row_matches_plugin(#[trigger] rows[j], q)
}

/// A manifest row — a name/url pair as the parser names it — matches a
/// software query when their case-folded names are equal.
pub open spec fn row_matches_app(row: (Seq<char>, Seq<char>), folded_query: Seq<char>) -> bool {
    lower_of(row.0) == folded_query
}

/// No row among the first `n` matches the case-folded software query.
pub open spec fn no_app_row_match_upto(
    rows: Seq<(Seq<char>, Seq<char>)>,
    folded_query: Seq<char>,
    n: int,
) -> bool {
    forall|j: int| 0 <= j < n ==> !row_matches_app(#[trigger] rows[j], folded_query)
}

/// Resolve a plugin entry: the first entry, in manifest order, whose `id` or
/// `file` equals the query exactly.  Fails with `NotFoundError` carrying the
/// query when no entry matches.
pub fn find_plugin<'a>(manifest: &'a Manifest, id_or_name: &str) -> (r: Result<
    &'a ManifestEntry,
    InstallError,
>)
    ensures
        r matches Ok(e) ==> exists|i: int|
            0 <= i < manifest.files@.len() && *e == manifest.files@[i] && plugin_matches(
                #[trigger] manifest.files@[i],
                id_or_name@,
            ) && no_plugin_match_upto(manifest.files@, id_or_name@, i),
        r is Err ==> no_plugin_match_upto(
            manifest.files@,
            id_or_name@,
            manifest.files@.len() as int,
        ),
        r matches Err(e) ==> e matches InstallError::NotFoundError(q) && q@ == id_or_name@,
{
    let query = id_or_name.to_owned();
    let n = manifest.files.len();
    for i in 0..n
        invariant
            n == manifest.files@.len(),
            query@ == id_or_name@,
            no_plugin_match_upto(manifest.files@, id_or_name@, i as int),
    {
        let entry = &manifest.files[i];
        if entry.id == query || entry.file == query {
            return Ok(entry);
        }
    }
    Err(InstallError::NotFoundError(query))
}

/// Resolve a software entry: the first entry, in manifest order, whose
/// case-folded `name` equals the case-folded query.  Fails with
/// `NotFoundError` carrying the query when no entry matches.
pub fn find_app<'a>(manifest: &'a AppsManifest, name: &str) -> (r: Result<
    &'a AppEntry,
    InstallError,
>)
    ensures
        r matches Ok(e) ==> exists|i: int|
            0 <= i < manifest.apps@.len() && *e == manifest.apps@[i] && app_matches(
                #[trigger] manifest.apps@[i],
                lower_of(name@),
            ) && no_app_match_upto(manifest.apps@, lower_of(name@), i),
        r is Err ==> no_app_match_upto(
            manifest.apps@,
            lower_of(name@),
            manifest.apps@.len() as int,
        ),
        r matches Err(e) ==> e matches InstallError::NotFoundError(q) && q@ == name@,
{
    let folded = to_lowercase(name);
    let n = manifest.apps.len();
    for i in 0..n
        invariant
            n == manifest.apps@.len(),
            folded@ == lower_of(name@),
            no_app_match_upto(manifest.apps@, lower_of(name@), i as int),
    {
        let entry = &manifest.apps[i];
        let entry_folded = to_lowercase(entry.name.as_str());
        if entry_folded == folded {
            return Ok(entry);
        }
    }
    Err(InstallError::NotFoundError(name.to_owned()))
}

/// Law: in a manifest whose entries match no query of another entry, the
/// first-match characterisation that `find_plugin` guarantees singles out
/// the same entry whether the query is that entry's `id` or its `file`
/// field: entry `i` matches both queries, no entry before it matches either,
/// and any index with that first-match property is `i` itself.
pub proof fn lemma_resolve_id_and_file_agree(files: Seq<ManifestEntry>, i: int)
    requires
        0 <= i < files.len(),
        forall|j: int|
            0 <= j < files.len() && j != i ==> !plugin_matches(#[trigger] files[j], files[i].id@)
                && !plugin_matches(files[j], files[i].file@),
    ensures
        plugin_matches(files[i], files[i].id@),
        plugin_matches(files[i], files[i].file@),
        no_plugin_match_upto(files, files[i].id@, i),
        no_plugin_match_upto(files, files[i].file@, i),
        forall|k: int|
            0 <= k < files.len() && plugin_matches(#[trigger] files[k], files[i].id@)
                && no_plugin_match_upto(files, files[i].id@, k) ==> k == i,
        forall|k: int|
            0 <= k < files.len() && plugin_matches(#[trigger] files[k], files[i].file@)
                && no_plugin_match_upto(files, files[i].file@, k) ==> k == i,
{
}

/// Law: software resolution depends on the query only through its
/// case-folded form.  Two queries that fold to the same sequence satisfy
/// exactly the same match predicates, so `find_app` resolves them to the
/// same entry or fails on both.
pub proof fn lemma_resolve_app_case_insensitive(
    apps: Seq<AppEntry>,
    q1: Seq<char>,
    q2: Seq<char>,
)
    requires
        lower_of(q1) == lower_of(q2),
    ensures
        forall|i: int|
            0 <= i < apps.len() ==> (app_matches(#[trigger] apps[i], lower_of(q1)) == app_matches(
                apps[i],
                lower_of(q2),
            )),
        forall|n: int|
            no_app_match_upto(apps, lower_of(q1), n) == no_app_match_upto(apps, lower_of(q2), n),
{
}

} // verus!
