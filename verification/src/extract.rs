//! Archive extraction, planned as verified data and performed by the caller.
//!
//! The zip crate decodes the archive; everything the original extractor
//! decides — the target directory, one directory or file per entry in
//! archive index order, parent directories before files, overwrite-in-order
//! semantics — is computed here as a `Vec<ExtractAction>` with a proved
//! correspondence to the archive's entries.  Entry names that would escape
//! the target directory (absolute names or `..` components) are rejected,
//! while well-formed archives extract exactly as before.

use vstd::prelude::*;
use vstd::string::StrSliceExecFns;
use vstd::string::StringExecFns;
use crate::errors::InstallError;
use crate::paths::{is_sep, join_path, join_dir, parent_of, parent_dir};

verus! {

/// Declares std::io::Cursor so that the archive's reader type can stand in
/// signatures; the value stays opaque.
#[verifier::external_type_specification]
#[verifier::external_body]
#[verifier::reject_recursive_types(T)]
pub struct ExCursor<T>(std::io::Cursor<T>);

/// Declares zip::ZipArchive so that opened archives can stand in
/// signatures; what one holds is spoken of through `zip_contents`.
#[verifier::external_type_specification]
#[verifier::external_body]
#[verifier::reject_recursive_types(R)]
pub struct ExZipArchive<R>(zip::ZipArchive<R>);

/// The entries an opened archive holds, in archive index order: each one's
/// decoded name and decompressed contents.
pub uninterp spec fn zip_contents(a: zip::ZipArchive<std::io::Cursor<Vec<u8>>>) -> Seq<
    (Seq<char>, Seq<u8>),
>;

/// What opening a byte buffer as an archive yields: `None` when the bytes
/// are not a readable archive, otherwise its entries.  A function of the
/// bytes alone.
pub uninterp spec fn zip_entries(bytes: Seq<u8>) -> Option<Seq<(Seq<char>, Seq<u8>)>>;

/// Whether each entry of an opened archive can be decoded — name and
/// decompressed contents readable — in archive index order.
pub uninterp spec fn zip_readable(a: zip::ZipArchive<std::io::Cursor<Vec<u8>>>) -> Seq<bool>;

/// The per-entry decodability of the archive these bytes hold, in archive
/// index order: a function of the bytes alone.
pub uninterp spec fn zip_decodable(bytes: Seq<u8>) -> Seq<bool>;

/// Every entry of the archive these bytes hold can be decoded.
pub open spec fn archive_fully_decodable(bytes: Seq<u8>) -> bool {
    forall|i: int|
        0 <= i < zip_entries(bytes).unwrap().len() ==> #[trigger] zip_decodable(bytes)[i]
}

/// Relies on zip::ZipArchive::new: reads the archive's central directory
/// from the byte buffer; which entries an archive holds is a function of
/// its bytes alone.
#[verifier::external_body]
fn zip_open(bytes: Vec<u8>) -> (r: Result<zip::ZipArchive<std::io::Cursor<Vec<u8>>>, String>)
    ensures
        r is Ok <==> zip_entries(bytes@) is Some,
        r matches Ok(a) ==> Some(zip_contents(a)) == zip_entries(bytes@),
        r matches Ok(a) ==> zip_readable(a) == zip_decodable(bytes@) && zip_readable(a).len()
            == zip_contents(a).len(),
{
    match zip::ZipArchive::new(std::io::Cursor::new(bytes)) {
        Ok(a) => Ok(a),
        Err(e) => Err(format!("{}", e)),
    }
}

/// Relies on zip::ZipArchive::len: the number of entries in the archive.
#[verifier::external_body]
fn zip_len(a: &zip::ZipArchive<std::io::Cursor<Vec<u8>>>) -> (n: usize)
    ensures
        n == zip_contents(*a).len(),
{
    a.len()
}

/// Relies on zip::ZipArchive::by_index: yields the entry at the given
/// index of the archive order — its decoded name and its decompressed
/// contents — and leaves the archive's entries unchanged.  On an archive
/// read from a byte buffer, whether one entry decodes depends on the bytes
/// and the index alone.
#[verifier::external_body]
fn zip_entry(a: &mut zip::ZipArchive<std::io::Cursor<Vec<u8>>>, i: usize) -> (r: Result<
    (String, Vec<u8>),
    String,
>)
    requires
        i < zip_contents(*old(a)).len(),
    ensures
        zip_contents(*final (a)) == zip_contents(*old(a)),
        zip_readable(*final (a)) == zip_readable(*old(a)),
        r matches Ok(e) ==> (e.0@, e.1@) == zip_contents(*old(a))[i as int],
        r is Ok <==> zip_readable(*old(a))[i as int],
{
    match a.by_index(i) {
        Ok(mut f) => {
            let name = f.name().to_string();
            let mut data = Vec::new();
            match std::io::Read::read_to_end(&mut f, &mut data) {
                Ok(_) => Ok((name, data)),
                Err(e) => Err(format!("{}", e)),
            }
        },
        Err(e) => Err(format!("{}", e)),
    }
}

/// One step of an extraction: create a directory (and its ancestors), or
/// write a file with the given contents, overwriting an existing one.
#[derive(Debug)]
pub enum ExtractAction {
    EnsureDir(String),
    WriteFile(String, Vec<u8>),
}

/// An archive entry whose name ends in `/` stands for a directory.
pub open spec fn is_dir_name(name: Seq<char>) -> bool {
    name.len() > 0 && name.last() == '/'
}

/// Whether `..` stands as a whole path component at position `i`.
pub open spec fn traversal_at(name: Seq<char>, i: int) -> bool {
    0 <= i && i + 2 <= name.len() && name[i] == '.' && name[i + 1] == '.' && (i == 0 || is_sep(
        name[i - 1],
    )) && (i + 2 == name.len() || is_sep(name[i + 2]))
}

/// Whether a name holds a `..` component anywhere.
pub open spec fn has_traversal(name: Seq<char>) -> bool {
    exists|i: int| traversal_at(name, i)
}

/// A safe entry name is relative and never steps upward: it does not start
/// with a separator and holds no `..` component.
pub open spec fn is_safe_entry_name(name: Seq<char>) -> bool {
    !(name.len() > 0 && is_sep(name[0])) && !has_traversal(name)
}

/// Every entry of an archive has a safe name.
pub open spec fn all_entries_safe(entries: Seq<(Seq<char>, Seq<u8>)>) -> bool {
    forall|i: int| 0 <= i < entries.len() ==> is_safe_entry_name(#[trigger] entries[i].0)
}

/// Whether a name is safe to extract under the target directory.
pub fn entry_name_safe(name: &str) -> (r: bool)
    ensures
        r == is_safe_entry_name(name@),
{
    let n = name.unicode_len();
    if n > 0 {
        let c0 = name.get_char(0);
        if c0 == '/' || c0 == '\\' {
            return false;
        }
    }
    let mut i: usize = 0;
    while n >= 2 && i <= n - 2
        invariant
            0 <= i <= n,
            n == name@.len(),
            forall|k: int| 0 <= k < i ==> !traversal_at(name@, k),
        decreases n - i,
    {
        if name.get_char(i) == '.' && name.get_char(i + 1) == '.' {
            let pre = if i == 0 {
                true
            } else {
                let c = name.get_char(i - 1);
                c == '/' || c == '\\'
            };
            let post = if i + 2 == n {
                true
            } else {
                let c = name.get_char(i + 2);
                c == '/' || c == '\\'
            };
            if pre && post {
                assert(traversal_at(name@, i as int));
                return false;
            }
        }
        i = i + 1;
    }
    assert(forall|k: int| !traversal_at(name@, k) || 0 <= k < i) by {
        assert(forall|k: int| k + 2 > n ==> !traversal_at(name@, k));
    }
    true
}

/// The action stands for creating this directory.
pub open spec fn is_dir_action(a: ExtractAction, path: Seq<char>) -> bool {
    a matches ExtractAction::EnsureDir(p) && p@ == path
}

/// The action stands for writing this file with these contents.
pub open spec fn is_file_action(a: ExtractAction, path: Seq<char>, data: Seq<u8>) -> bool {
    a matches ExtractAction::WriteFile(p, d) && p@ == path && d@ == data
}

/// The plan reproduces the entries in archive order: one directory action
/// per directory entry, and a parent-directory action followed by a file
/// action per file entry, each rooted under the target directory.
pub open spec fn plan_matches(
    plan: Seq<ExtractAction>,
    entries: Seq<(Seq<char>, Seq<u8>)>,
    root: Seq<char>,
) -> bool
    decreases entries.len(),
{
    if entries.len() == 0 {
        plan.len() == 0
    } else {
        let e = entries[0];
        if is_dir_name(e.0) {
            plan.len() >= 1 && is_dir_action(plan[0], join_path(root, e.0)) && plan_matches(
                plan.skip(1),
                entries.skip(1),
                root,
            )
        } else {
            plan.len() >= 2 && is_dir_action(plan[0], parent_of(join_path(root, e.0)))
                && is_file_action(plan[1], join_path(root, e.0), e.1) && plan_matches(
                plan.skip(2),
                entries.skip(1),
                root,
            )
        }
    }
}

/// The actions that one archive entry contributes to a plan.
pub open spec fn entry_actions_match(
    acts: Seq<ExtractAction>,
    e: (Seq<char>, Seq<u8>),
    root: Seq<char>,
) -> bool {
    if is_dir_name(e.0) {
        acts.len() == 1 && is_dir_action(acts[0], join_path(root, e.0))
    } else {
        acts.len() == 2 && is_dir_action(acts[0], parent_of(join_path(root, e.0)))
            && is_file_action(acts[1], join_path(root, e.0), e.1)
    }
}

/// A matching plan stays matching when one more entry's actions follow it.
proof fn lemma_plan_matches_push(
    plan: Seq<ExtractAction>,
    entries: Seq<(Seq<char>, Seq<u8>)>,
    root: Seq<char>,
    acts: Seq<ExtractAction>,
    e: (Seq<char>, Seq<u8>),
)
    requires
        plan_matches(plan, entries, root),
        entry_actions_match(acts, e, root),
    ensures
        plan_matches(plan + acts, entries.push(e), root),
    decreases entries.len(),
{
    if entries.len() == 0 {
        assert(plan + acts =~= acts);
        assert(entries.push(e)[0] == e);
        assert(entries.push(e).skip(1) =~= Seq::<(Seq<char>, Seq<u8>)>::empty());
        if is_dir_name(e.0) {
            assert(acts.skip(1).len() == 0);
            assert(plan_matches(acts.skip(1), entries.push(e).skip(1), root));
            assert(plan_matches(acts, entries.push(e), root));
        } else {
            assert(acts.skip(2).len() == 0);
            assert(plan_matches(acts.skip(2), entries.push(e).skip(1), root));
            assert(plan_matches(acts, entries.push(e), root));
        }
    } else {
        let e0 = entries[0];
        assert(entries.push(e)[0] == e0);
        assert(entries.push(e).skip(1) =~= entries.skip(1).push(e));
        if is_dir_name(e0.0) {
            assert((plan + acts)[0] == plan[0]);
            assert((plan + acts).skip(1) =~= plan.skip(1) + acts);
            lemma_plan_matches_push(plan.skip(1), entries.skip(1), root, acts, e);
            assert(plan_matches(plan.skip(1) + acts, entries.skip(1).push(e), root));
            assert(plan_matches((plan + acts).skip(1), entries.push(e).skip(1), root));
        } else {
            assert((plan + acts)[0] == plan[0]);
            assert((plan + acts)[1] == plan[1]);
            assert((plan + acts).skip(2) =~= plan.skip(2) + acts);
            lemma_plan_matches_push(plan.skip(2), entries.skip(1), root, acts, e);
            assert(plan_matches(plan.skip(2) + acts, entries.skip(1).push(e), root));
            assert(plan_matches((plan + acts).skip(2), entries.push(e).skip(1), root));
        }
    }
}

/// Plans the extraction of an archive into a target directory: the target
/// directory first, then, per entry in archive index order, a directory
/// action for a directory entry, or a parent-directory action and a file
/// action for a file entry.  Succeeds whenever the bytes are a readable
/// archive all of whose entries decode and carry safe names; fails with
/// `ExtractionError` otherwise: unreadable bytes, an entry that cannot be
/// decoded, or an entry whose name would escape the target directory.
pub fn extract_zip(zip_bytes: Vec<u8>, extract_to: &str) -> (r: Result<
    Vec<ExtractAction>,
    InstallError,
>)
    ensures
        r matches Ok(plan) ==> {
            &&& zip_entries(zip_bytes@) matches Some(entries)
            &&& plan@.len() >= 1
            &&& is_dir_action(plan@[0], extract_to@)
            &&& plan_matches(plan@.skip(1), zip_entries(zip_bytes@).unwrap(), extract_to@)
            &&& all_entries_safe(zip_entries(zip_bytes@).unwrap())
        },
        (zip_entries(zip_bytes@) is Some && all_entries_safe(zip_entries(zip_bytes@).unwrap())
            && archive_fully_decodable(zip_bytes@)) ==> r is Ok,
        zip_entries(zip_bytes@) is None ==> r is Err,
        r matches Err(e) ==> e is ExtractionError,
{
    let ghost bytes_view = zip_bytes@;
    let mut archive = match zip_open(zip_bytes) {
        Ok(a) => a,
        Err(m) => {
            let mut msg = "failed to open zip archive: ".to_owned();
            msg.append(m.as_str());
            return Err(InstallError::ExtractionError(msg));
        },
    };
    let ghost entries = zip_contents(archive);
    let ghost readable = zip_readable(archive);
    let n = zip_len(&archive);
    let mut plan: Vec<ExtractAction> = Vec::new();
    plan.push(ExtractAction::EnsureDir(extract_to.to_owned()));
    let mut i: usize = 0;
    while i < n
        invariant
            0 <= i <= n,
            n == entries.len(),
            bytes_view == zip_bytes@,
            zip_contents(archive) == entries,
            zip_readable(archive) == readable,
            readable == zip_decodable(bytes_view),
            Some(entries) == zip_entries(bytes_view),
            plan@.len() >= 1,
            is_dir_action(plan@[0], extract_to@),
            plan_matches(plan@.skip(1), entries.take(i as int), extract_to@),
            forall|j: int| 0 <= j < i ==> is_safe_entry_name(#[trigger] entries[j].0),
        decreases n - i,
    {
        let ghost plan_before = plan@;
        let (name, data) = match zip_entry(&mut archive, i) {
            Ok(e) => e,
            Err(m) => {
                proof {
                    assert(!archive_fully_decodable(bytes_view)) by {
                        assert(zip_entries(bytes_view).unwrap() == entries);
                        assert((i as int) < entries.len());
                        assert(!zip_decodable(bytes_view)[i as int]);
                    }
                }
                let mut msg = "failed to read zip entry: ".to_owned();
                msg.append(m.as_str());
                return Err(InstallError::ExtractionError(msg));
            },
        };
        if !entry_name_safe(name.as_str()) {
            proof {
                assert(zip_entries(bytes_view).unwrap() == entries);
                assert(!is_safe_entry_name(entries[i as int].0));
                assert(!all_entries_safe(zip_entries(bytes_view).unwrap()));
            }
            let mut msg = "archive entry escapes the target directory: ".to_owned();
            msg.append(name.as_str());
            return Err(InstallError::ExtractionError(msg));
        }
        let out = join_dir(extract_to, name.as_str());
        let n_name = name.as_str().unicode_len();
        let is_dir = n_name > 0 && name.as_str().get_char(n_name - 1) == '/';
        if is_dir {
            plan.push(ExtractAction::EnsureDir(out));
            proof {
                let acts = seq![plan@[plan@.len() - 1]];
                assert(plan@ =~= plan_before + acts);
                assert(plan@.skip(1) =~= plan_before.skip(1) + acts);
                assert(entries.take(i + 1) =~= entries.take(i as int).push(entries[i as int]));
                lemma_plan_matches_push(
                    plan_before.skip(1),
                    entries.take(i as int),
                    extract_to@,
                    acts,
                    entries[i as int],
                );
            }
        } else {
            let parent = parent_dir(out.as_str());
            plan.push(ExtractAction::EnsureDir(parent));
            plan.push(ExtractAction::WriteFile(out, data));
            proof {
                let acts = seq![plan@[plan@.len() - 2], plan@[plan@.len() - 1]];
                assert(plan@ =~= plan_before + acts);
                assert(plan@.skip(1) =~= plan_before.skip(1) + acts);
                assert(entries.take(i + 1) =~= entries.take(i as int).push(entries[i as int]));
                lemma_plan_matches_push(
                    plan_before.skip(1),
                    entries.take(i as int),
                    extract_to@,
                    acts,
                    entries[i as int],
                );
            }
        }
        i = i + 1;
    }
    proof {
        assert(entries.take(n as int) =~= entries);
    }
    Ok(plan)
}

/// What one action does to a file tree, modelled as a map from paths to
/// file contents: directory creation changes no file, a write inserts or
/// overwrites one.
pub open spec fn apply_action(
    fs: Map<Seq<char>, Seq<u8>>,
    a: ExtractAction,
) -> Map<Seq<char>, Seq<u8>> {
    match a {
        ExtractAction::EnsureDir(_) => fs,
        ExtractAction::WriteFile(p, d) => fs.insert(p@, d@),
    }
}

/// The file tree after a plan runs front to back.
pub open spec fn apply_plan(
    fs: Map<Seq<char>, Seq<u8>>,
    plan: Seq<ExtractAction>,
) -> Map<Seq<char>, Seq<u8>>
    decreases plan.len(),
{
    if plan.len() == 0 {
        fs
    } else {
        apply_plan(apply_action(fs, plan[0]), plan.skip(1))
    }
}

/// Joining distinct names under one root yields distinct paths.
pub proof fn lemma_join_path_injective(root: Seq<char>, a: Seq<char>, b: Seq<char>)
    requires
        join_path(root, a) == join_path(root, b),
    ensures
        a == b,
{
    reveal_strlit("/");
    assert(join_path(root, a).len() == root.len() + 1 + a.len());
    assert(join_path(root, b).len() == root.len() + 1 + b.len());
    assert(a.len() == b.len());
    assert forall|i: int| 0 <= i < a.len() implies a[i] == b[i] by {
        assert(join_path(root, a)[root.len() + 1 + i] == a[i]);
        assert(join_path(root, b)[root.len() + 1 + i] == b[i]);
    }
    assert(a =~= b);
}

/// A plan whose entries all lie on other paths leaves one path alone.
proof fn lemma_apply_plan_preserves(
    fs: Map<Seq<char>, Seq<u8>>,
    plan: Seq<ExtractAction>,
    entries: Seq<(Seq<char>, Seq<u8>)>,
    root: Seq<char>,
    key: Seq<char>,
)
    requires
        plan_matches(plan, entries, root),
        forall|j: int| 0 <= j < entries.len() ==> join_path(root, #[trigger] entries[j].0) != key,
    ensures
        apply_plan(fs, plan).contains_key(key) == fs.contains_key(key),
        fs.contains_key(key) ==> apply_plan(fs, plan)[key] == fs[key],
    decreases entries.len(),
{
    if entries.len() == 0 {
    } else {
        let e0 = entries[0];
        if is_dir_name(e0.0) {
            lemma_apply_plan_preserves(fs, plan.skip(1), entries.skip(1), root, key);
        } else {
            let fs2 = fs.insert(join_path(root, e0.0), e0.1);
            assert(plan.skip(1)[0] == plan[1]);
            assert(plan.skip(1).skip(1) =~= plan.skip(2));
            assert(apply_action(fs, plan[0]) == fs);
            assert(apply_plan(fs, plan) == apply_plan(fs, plan.skip(1)));
            assert(apply_action(fs, plan.skip(1)[0]) == fs2);
            assert(apply_plan(fs, plan.skip(1)) == apply_plan(fs2, plan.skip(2)));
            lemma_apply_plan_preserves(fs2, plan.skip(2), entries.skip(1), root, key);
        }
    }
}

/// Applying a matching plan writes each file entry's bytes at its joined
/// path; the last entry on a path wins.
proof fn lemma_apply_plan_writes(
    fs: Map<Seq<char>, Seq<u8>>,
    plan: Seq<ExtractAction>,
    entries: Seq<(Seq<char>, Seq<u8>)>,
    root: Seq<char>,
    i: int,
)
    requires
        plan_matches(plan, entries, root),
        0 <= i < entries.len(),
        !is_dir_name(entries[i].0),
        forall|j: int| i < j < entries.len() ==> join_path(root, #[trigger] entries[j].0)
            != join_path(root, entries[i].0),
    ensures
        apply_plan(fs, plan).contains_key(join_path(root, entries[i].0)),
        apply_plan(fs, plan)[join_path(root, entries[i].0)] == entries[i].1,
    decreases entries.len(),
{
    let key = join_path(root, entries[i].0);
    let e0 = entries[0];
    if is_dir_name(e0.0) {
        assert(i >= 1);
        assert(entries.skip(1)[i - 1] == entries[i]);
        lemma_apply_plan_writes(fs, plan.skip(1), entries.skip(1), root, i - 1);
    } else {
        let fs2 = fs.insert(join_path(root, e0.0), e0.1);
        assert(plan.skip(1)[0] == plan[1]);
        assert(plan.skip(1).skip(1) =~= plan.skip(2));
        assert(apply_action(fs, plan[0]) == fs);
        assert(apply_plan(fs, plan) == apply_plan(fs, plan.skip(1)));
        assert(apply_action(fs, plan.skip(1)[0]) == fs2);
        assert(apply_plan(fs, plan.skip(1)) == apply_plan(fs2, plan.skip(2)));
        if i == 0 {
            assert(fs2.contains_key(key) && fs2[key] == entries[0].1);
            assert(forall|j: int| 0 <= j < entries.skip(1).len() ==> join_path(
                root,
                #[trigger] entries.skip(1)[j].0,
            ) != key);
            lemma_apply_plan_preserves(fs2, plan.skip(2), entries.skip(1), root, key);
        } else {
            assert(entries.skip(1)[i - 1] == entries[i]);
            lemma_apply_plan_writes(fs2, plan.skip(2), entries.skip(1), root, i - 1);
        }
    }
}

/// Law: the plugin install round trip.  In an archive whose entries hold
/// exactly one named `main.ps1`, extracting a matching plan materialises
/// that entry's bytes at `{root}/main.ps1`; reading that file's trimmed
/// first line and appending it to a well-formed ledger leaves the ledger
/// well formed with exactly that line as its new trailing line.
pub proof fn lemma_install_round_trip(
    fs: Map<Seq<char>, Seq<u8>>,
    plan: Seq<ExtractAction>,
    entries: Seq<(Seq<char>, Seq<u8>)>,
    root: Seq<char>,
    i: int,
    ledger: Seq<u8>,
)
    requires
        plan_matches(plan, entries, root),
        0 <= i < entries.len(),
        entries[i].0 == "main.ps1"@,
        forall|j: int| 0 <= j < entries.len() && j != i ==> #[trigger] entries[j].0
            != "main.ps1"@,
        crate::lines::ledger_wf(ledger),
    ensures
        apply_plan(fs, plan).contains_key(join_path(root, "main.ps1"@)),
        apply_plan(fs, plan)[join_path(root, "main.ps1"@)] == entries[i].1,
        crate::lines::ledger_wf(
            crate::lines::ledger_append(ledger, crate::lines::first_line_trimmed(entries[i].1)),
        ),
        crate::lines::trailing_line(
            crate::lines::ledger_append(ledger, crate::lines::first_line_trimmed(entries[i].1)),
        ) == crate::lines::first_line_trimmed(entries[i].1),
{
    reveal_strlit("main.ps1");
    assert(!is_dir_name(entries[i].0));
    assert forall|j: int| i < j < entries.len() implies join_path(root, #[trigger] entries[j].0)
        != join_path(root, entries[i].0) by {
        if join_path(root, entries[j].0) == join_path(root, entries[i].0) {
            lemma_join_path_injective(root, entries[j].0, entries[i].0);
        }
    }
    lemma_apply_plan_writes(fs, plan, entries, root, i);
    crate::lines::lemma_record_no_newline(entries[i].1);
    crate::lines::lemma_ledger_trailing_line(
        ledger,
        crate::lines::first_line_trimmed(entries[i].1),
    );
}

} // verus!
