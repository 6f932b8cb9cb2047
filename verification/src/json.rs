//! Manifest parsing: from a fetched body to typed records.
//!
//! The serde_json crate decodes the document.  What a well-formed manifest
//! yields — the ordered field pairs of its rows — is named as a function of
//! the text (`plugin_rows_of`, `apps_rows_of`), handed out by one trusted
//! extraction per manifest shape, and turned into typed records by verified
//! code.  A refused body produces one `ParseError` whose message names what
//! is missing and ends with the source URL.

use vstd::prelude::*;
use vstd::string::StringExecFns;
use crate::errors::InstallError;
use crate::manifest::{AppEntry, AppsManifest, Manifest, ManifestEntry};

verus! {

/// Declares serde_json::Value so that parsed documents can stand in
/// signatures; the value stays opaque and is read through the accessor
/// wrappers below.
#[verifier::external_type_specification]
#[verifier::external_body]
pub struct ExValue(serde_json::Value);

/// Whether a character sequence is a well-formed JSON document, as
/// serde_json::from_str decides it: a function of the text alone.
pub uninterp spec fn json_doc_ok(text: Seq<char>) -> bool;

/// The id/file rows of a plugin manifest document: `Some` exactly when the
/// text is a JSON document holding a `files` array whose rows all carry
/// string fields `id` and `file`, and then those pairs in row order.  A
/// function of the text alone, as serde_json reads it.
pub uninterp spec fn plugin_rows_of(text: Seq<char>) -> Option<Seq<(Seq<char>, Seq<char>)>>;

/// The name/url rows of a software manifest document: `Some` exactly when
/// the text is a JSON document holding an `apps` array whose rows all carry
/// string fields `name` and `url`, and then those pairs in row order.  A
/// function of the text alone, as serde_json reads it.
pub uninterp spec fn apps_rows_of(text: Seq<char>) -> Option<Seq<(Seq<char>, Seq<char>)>>;

/// The extracted rows carry exactly the named pairs, in order.
pub open spec fn rows_correspond(
    rows: Seq<(String, String)>,
    model: Seq<(Seq<char>, Seq<char>)>,
) -> bool {
    rows.len() == model.len() && forall|i: int|
        0 <= i < rows.len() ==> (#[trigger] rows[i]).0@ == model[i].0 && rows[i].1@ == model[i].1
}

/// One sequence ends with another.
pub open spec fn ends_with(s: Seq<char>, suffix: Seq<char>) -> bool {
    s.len() >= suffix.len() && s.subrange(s.len() - suffix.len(), s.len() as int) == suffix
}

/// A concatenation ends with its second part.
pub proof fn lemma_concat_ends_with(a: Seq<char>, b: Seq<char>)
    ensures
        ends_with(a + b, b),
{
    assert((a + b).subrange((a + b).len() - b.len(), (a + b).len() as int) =~= b);
}

/// Relies on serde_json::from_str: parses text as one JSON document;
/// whether parsing succeeds is a function of the text alone.
#[verifier::external_body]
fn parse_json(text: &str) -> (r: Option<serde_json::Value>)
    ensures
        r is Some <==> json_doc_ok(text@),
{
    match serde_json::from_str(text) {
        Ok(v) => Some(v),
        Err(_) => None,
    }
}

/// Relies on serde_json::Value::get: the value under a key of a JSON
/// object, `None` on other values or absent keys.
#[verifier::external_body]
fn json_get<'a>(v: &'a serde_json::Value, key: &str) -> (r: Option<&'a serde_json::Value>) {
    v.get(key)
}

/// Relies on serde_json::Value::as_array: the elements of a JSON array,
/// `None` on any other value.
#[verifier::external_body]
fn json_as_array<'a>(v: &'a serde_json::Value) -> (r: Option<&'a Vec<serde_json::Value>>) {
    v.as_array()
}

/// Relies on serde_json::Value::as_str: the contents of a JSON string,
/// `None` on any other value.
#[verifier::external_body]
fn json_as_str<'a>(v: &'a serde_json::Value) -> (r: Option<&'a str>) {
    v.as_str()
}

/// Relies on serde_json (from_str, Value::get, as_array, as_str): extracts
/// a plugin manifest's id/file rows, `None` exactly when the text is not a
/// document of that shape — a function of the text alone.
#[verifier::external_body]
fn plugin_rows(text: &str) -> (r: Option<Vec<(String, String)>>)
    ensures
        r is Some <==> plugin_rows_of(text@) is Some,
        r matches Some(rows) ==> rows_correspond(rows@, plugin_rows_of(text@).unwrap()),
{
    let doc: serde_json::Value = serde_json::from_str(text).ok()?;
    let list = doc.get("files")?.as_array()?;
    let mut out = Vec::new();
    for row in list {
        let id = row.get("id")?.as_str()?;
        let file = row.get("file")?.as_str()?;
        out.push((id.to_owned(), file.to_owned()));
    }
    Some(out)
}

/// Relies on serde_json (from_str, Value::get, as_array, as_str): extracts
/// a software manifest's name/url rows, `None` exactly when the text is not
/// a document of that shape — a function of the text alone.
#[verifier::external_body]
fn apps_rows(text: &str) -> (r: Option<Vec<(String, String)>>)
    ensures
        r is Some <==> apps_rows_of(text@) is Some,
        r matches Some(rows) ==> rows_correspond(rows@, apps_rows_of(text@).unwrap()),
{
    let doc: serde_json::Value = serde_json::from_str(text).ok()?;
    let list = doc.get("apps")?.as_array()?;
    let mut out = Vec::new();
    for row in list {
        let name = row.get("name")?.as_str()?;
        let url = row.get("url")?.as_str()?;
        out.push((name.to_owned(), url.to_owned()));
    }
    Some(out)
}

/// A typed manifest carries exactly the named id/file pairs, in order.
pub open spec fn manifest_matches_rows(
    files: Seq<ManifestEntry>,
    model: Seq<(Seq<char>, Seq<char>)>,
) -> bool {
    files.len() == model.len() && forall|i: int|
        0 <= i < files.len() ==> (#[trigger] files[i]).id@ == model[i].0 && files[i].file@
            == model[i].1
}

/// A typed apps manifest carries exactly the named name/url pairs, in order.
pub open spec fn apps_match_rows(
    apps: Seq<AppEntry>,
    model: Seq<(Seq<char>, Seq<char>)>,
) -> bool {
    apps.len() == model.len() && forall|i: int|
        0 <= i < apps.len() ==> (#[trigger] apps[i]).name@ == model[i].0 && apps[i].url@
            == model[i].1
}

/// Builds a parse-error message: the description followed by the source
/// URL, so that every parse error names where the document came from.
fn message_with_url(description: String, source_url: &str) -> (r: String)
    ensures
        ends_with(r@, source_url@),
{
    let ghost d = description@;
    let mut s = description;
    s.append(source_url);
    proof {
        lemma_concat_ends_with(d, source_url@);
    }
    s
}

/// Says what a refused manifest body lacks: the document, the named list,
/// or a string field of one row.  Only the shape of the message is
/// promised; it always ends with the source URL.
fn describe_rows_failure(
    text: &str,
    source_url: &str,
    list_key: &str,
    first_key: &str,
    second_key: &str,
) -> (r: String)
    ensures
        ends_with(r@, source_url@),
{
    let doc = match parse_json(text) {
        Some(v) => v,
        None => {
            return message_with_url("failed to parse manifest data from ".to_owned(), source_url);
        },
    };
    let rows = match json_get(&doc, list_key) {
        Some(v) => match json_as_array(v) {
            Some(a) => a,
            None => {
                let mut d = "the '".to_owned();
                d.append(list_key);
                d.append("' field is not a list in manifest from ");
                return message_with_url(d, source_url);
            },
        },
        None => {
            let mut d = "missing '".to_owned();
            d.append(list_key);
            d.append("' list in manifest from ");
            return message_with_url(d, source_url);
        },
    };
    let n = rows.len();
    for i in 0..n
        invariant
            n == rows@.len(),
    {
        let first_ok = match json_get(&rows[i], first_key) {
            Some(v) => json_as_str(v).is_some(),
            None => false,
        };
        if !first_ok {
            let mut d = "missing or invalid field '".to_owned();
            d.append(first_key);
            d.append("' in manifest from ");
            return message_with_url(d, source_url);
        }
        let second_ok = match json_get(&rows[i], second_key) {
            Some(v) => json_as_str(v).is_some(),
            None => false,
        };
        if !second_ok {
            let mut d = "missing or invalid field '".to_owned();
            d.append(second_key);
            d.append("' in manifest from ");
            return message_with_url(d, source_url);
        }
    }
    message_with_url("failed to parse manifest data from ".to_owned(), source_url)
}

/// Parses a plugin manifest: a JSON document whose `files` field lists rows
/// with string fields `id` and `file`.  Succeeds exactly when the body has
/// that shape, with the typed rows in order; fails with one `ParseError`
/// whose message names what is missing and ends with the source URL.
pub fn parse_plugin_manifest(text: &str, source_url: &str) -> (r: Result<Manifest, InstallError>)
    ensures
        r is Ok <==> plugin_rows_of(text@) is Some,
        r matches Ok(m) ==> manifest_matches_rows(m.files@, plugin_rows_of(text@).unwrap()),
        r matches Err(e) ==> (e matches InstallError::ParseError(s) && ends_with(s@, source_url@)),
{
    let rows = match plugin_rows(text) {
        Some(rows) => rows,
        None => {
            return Err(
                InstallError::ParseError(
                    describe_rows_failure(text, source_url, "files", "id", "file"),
                ),
            );
        },
    };
    let mut files: Vec<ManifestEntry> = Vec::new();
    let n = rows.len();
    for i in 0..n
        invariant
            n == rows@.len(),
            rows_correspond(rows@, plugin_rows_of(text@).unwrap()),
            files@.len() == i,
            forall|j: int|
                0 <= j < i ==> (#[trigger] files@[j]).id@ == rows@[j].0@ && files@[j].file@
                    == rows@[j].1@,
    {
        files.push(ManifestEntry { id: rows[i].0.clone(), file: rows[i].1.clone() });
    }
    Ok(Manifest { files })
}

/// Parses a software manifest: a JSON document whose `apps` field lists
/// rows with string fields `name` and `url`.  Succeeds exactly when the
/// body has that shape, with the typed rows in order; fails with one
/// `ParseError` whose message names what is missing and ends with the
/// source URL.
pub fn parse_apps_manifest(text: &str, source_url: &str) -> (r: Result<AppsManifest, InstallError>)
    ensures
        r is Ok <==> apps_rows_of(text@) is Some,
        r matches Ok(m) ==> apps_match_rows(m.apps@, apps_rows_of(text@).unwrap()),
        r matches Err(e) ==> (e matches InstallError::ParseError(s) && ends_with(s@, source_url@)),
{
    let rows = match apps_rows(text) {
        Some(rows) => rows,
        None => {
            return Err(
                InstallError::ParseError(
                    describe_rows_failure(text, source_url, "apps", "name", "url"),
                ),
            );
        },
    };
    let mut apps: Vec<AppEntry> = Vec::new();
    let n = rows.len();
    for i in 0..n
        invariant
            n == rows@.len(),
            rows_correspond(rows@, apps_rows_of(text@).unwrap()),
            apps@.len() == i,
            forall|j: int|
                0 <= j < i ==> (#[trigger] apps@[j]).name@ == rows@[j].0@ && apps@[j].url@
                    == rows@[j].1@,
    {
        apps.push(AppEntry { name: rows[i].0.clone(), url: rows[i].1.clone() });
    }
    Ok(AppsManifest { apps })
}

} // verus!
