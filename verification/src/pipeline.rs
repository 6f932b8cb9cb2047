//! The install pipelines, as state machines over events.
//!
//! Each install is a strict sequence of steps whose only branching is the
//! error short-circuit.  The decisions — what to fetch, where to download,
//! how to extract, what to record, and how each failure is wrapped — are
//! taken here; the caller performs each returned action (the network, file
//! and process I/O) and hands the outcome back as the next event.  A first
//! failure aborts the remaining steps of that one install; nothing is
//! rolled back.

use vstd::prelude::*;
use vstd::pervasive::unreached;
use vstd::string::StrSliceExecFns;
use vstd::string::StringExecFns;
use crate::errors::InstallError;
use crate::extract::{
    extract_zip, ExtractAction, is_dir_action, plan_matches, all_entries_safe, zip_entries,
    archive_fully_decodable,
};
use crate::fold::lower_of;
use crate::json::{parse_plugin_manifest, parse_apps_manifest, plugin_rows_of, apps_rows_of,
    ends_with,
};
use crate::lines::{first_line_trimmed, read_first_line};
use crate::locate::{find_main_file, has_name};
use crate::manifest::{
    ManifestEntry, AppEntry, plugin_matches, app_matches, find_plugin, find_app,
    no_plugin_match_upto, no_app_match_upto, row_matches_plugin, no_plugin_row_match_upto,
    row_matches_app, no_app_row_match_upto,
};
use crate::paths::{
    download_url, download_url_spec, join_path, join_dir, with_suffix, file_stem, stem_of,
    base_name_of,
};

verus! {

/// The endpoints and directories one installer run works against.
pub struct InstallerConfig {
    /// Where the plugin manifest is fetched from.
    pub repo_url: String,
    /// Where the software manifest is fetched from.
    pub apps_url: String,
    /// The base of every plugin archive URL.
    pub download_base_url: String,
    /// The directory plugins are extracted under; also holds the ledger.
    pub plugins_root: String,
}

/// What a finished download handed back: where the file was written, and
/// whether it is in fact there.
pub struct DownloadedFile {
    pub path: String,
    pub exists: bool,
}

/// Where one plugin install stands.
pub enum PluginPhase {
    /// The manifest was requested.
    AwaitingManifest { query: String },
    /// The entry resolved; its archive was requested.
    AwaitingDownload { query: String, entry: ManifestEntry },
    /// The archive arrived; its bytes were requested.
    AwaitingArchive { query: String, dir_name: String },
    /// The extraction plan was handed out to be applied.
    AwaitingExtraction { query: String, dir: String },
    /// The main file was located; its bytes were requested.
    AwaitingMainFile { query: String },
    /// The entry-point record was handed out to be appended.
    AwaitingRegistry { query: String },
    /// Every step finished.
    Succeeded { query: String },
    /// A step failed; the install stops here.
    Failed { error: InstallError },
}

/// What the caller reports back after performing an action.
pub enum PluginEvent {
    /// The manifest body, or the transport failure.
    ManifestFetched(Result<String, String>),
    /// Where the archive was downloaded to, or the transport failure.
    DownloadFinished(Result<DownloadedFile, String>),
    /// The downloaded archive's bytes, or the read failure.
    ArchiveRead(Result<Vec<u8>, String>),
    /// The names now present in the extraction directory, or the failure.
    ExtractionApplied(Result<Vec<String>, String>),
    /// The main file's bytes, or the read failure.
    MainFileRead(Result<Vec<u8>, String>),
    /// Whether appending to the ledger succeeded.
    RegistryAppended(Result<(), String>),
}

/// What the caller must do next.
pub enum PluginAction {
    /// Fetch this URL's body as text.
    FetchManifest { url: String },
    /// Download this URL to a temporary file with this name.
    DownloadArchive { url: String, file_name: String },
    /// Read this file's bytes.
    ReadArchive { path: String },
    /// Apply the extraction plan, then list the directory's file names.
    ApplyExtraction { dir: String, plan: Vec<ExtractAction> },
    /// Read this file's bytes.
    ReadMainFile { path: String },
    /// Append this entry-point record to the ledger.
    AppendRegistry { line: Vec<u8> },
    /// Print the success message; the install is done.
    Report { message: String },
    /// Stop; the phase holds the error.
    Abort,
}

/// Which event each phase awaits.  Terminal phases await none.
pub open spec fn plugin_expects(phase: PluginPhase, event: PluginEvent) -> bool {
    match phase {
        PluginPhase::AwaitingManifest { .. } => event is ManifestFetched,
        PluginPhase::AwaitingDownload { .. } => event is DownloadFinished,
        PluginPhase::AwaitingArchive { .. } => event is ArchiveRead,
        PluginPhase::AwaitingExtraction { .. } => event is ExtractionApplied,
        PluginPhase::AwaitingMainFile { .. } => event is MainFileRead,
        PluginPhase::AwaitingRegistry { .. } => event is RegistryAppended,
        PluginPhase::Succeeded { .. } => false,
        PluginPhase::Failed { .. } => false,
    }
}

/// Starts one plugin install: the manifest is fetched first.
pub fn start_plugin_install(cfg: &InstallerConfig, query: &str) -> (r: (
    PluginPhase,
    PluginAction,
))
    ensures
        r.0 matches PluginPhase::AwaitingManifest { query: q } && q@ == query@,
        r.1 matches PluginAction::FetchManifest { url } && url@ == cfg.repo_url@,
{
    (
        PluginPhase::AwaitingManifest { query: query.to_owned() },
        PluginAction::FetchManifest { url: cfg.repo_url.clone() },
    )
}

/// Starts one local plugin install: no manifest step; the archive is a
/// pre-existing local file, and the extraction directory is named after
/// the file's stem.  A path with no file name — one ending in a separator,
/// say — yields no stem to name the directory by, and fails at once.
pub fn start_local_plugin_install(file_path: &str) -> (r: (PluginPhase, PluginAction))
    ensures
        stem_of(base_name_of(file_path@)).len() == 0 ==> (r.0 matches PluginPhase::Failed { error }
            && error matches InstallError::IOError(s) && s@ == "no file name in local path: "@
            + file_path@ && r.1 is Abort),
        stem_of(base_name_of(file_path@)).len() > 0 ==> {
            &&& r.0 matches PluginPhase::AwaitingArchive { query, dir_name } && query@ == stem_of(
                base_name_of(file_path@),
            ) && dir_name@ == stem_of(base_name_of(file_path@))
            &&& r.1 matches PluginAction::ReadArchive { path } && path@ == file_path@
        },
{
    let stem = file_stem(file_path);
    if stem.as_str().unicode_len() == 0 {
        return (
            PluginPhase::Failed {
                error: InstallError::IOError(
                    with_suffix("no file name in local path: ", file_path),
                ),
            },
            PluginAction::Abort,
        );
    }
    (
        PluginPhase::AwaitingArchive { query: stem.clone(), dir_name: stem },
        PluginAction::ReadArchive { path: file_path.to_owned() },
    )
}

/// One step of a plugin install: consumes the phase and the event it
/// awaited, and yields the next phase with the next action.
pub fn plugin_step(cfg: &InstallerConfig, phase: PluginPhase, event: PluginEvent) -> (r: (
    PluginPhase,
    PluginAction,
))
    requires
        plugin_expects(phase, event),
    ensures
        phase matches PluginPhase::AwaitingManifest { query } ==> (event matches
            PluginEvent::ManifestFetched(body) ==> {
            &&& body matches Err(m) ==> (r.0 matches PluginPhase::Failed { error }
                && error matches InstallError::NetworkError(s) && s@ == "failed to fetch manifest: "@
                + m@ && r.1 is Abort)
            &&& body matches Ok(text) ==> {
                &&& plugin_rows_of(text@) is None ==> (r.0 matches PluginPhase::Failed { error }
                    && error matches InstallError::ParseError(s) && ends_with(s@, cfg.repo_url@)
                    && r.1 is Abort)
                &&& plugin_rows_of(text@) matches Some(rows) ==> {
                    &&& no_plugin_row_match_upto(rows, query@, rows.len() as int) ==> (r.0
                        matches PluginPhase::Failed { error }
                        && error matches InstallError::NotFoundError(q) && q@ == query@
                        && r.1 is Abort)
                    &&& !no_plugin_row_match_upto(rows, query@, rows.len() as int) ==> (r.0
                        matches PluginPhase::AwaitingDownload { query: q2, entry } && q2 == query
                        && (exists|i: int|
                        0 <= i < rows.len() && entry.id@ == rows[i].0 && entry.file@ == rows[i].1
                            && row_matches_plugin(#[trigger] rows[i], query@)
                            && no_plugin_row_match_upto(rows, query@, i)) && (r.1
                        matches PluginAction::DownloadArchive { url, file_name } && url@
                        == download_url_spec(cfg.download_base_url@, entry.id@, entry.file@)
                        && file_name@ == entry.file@ + ".zip"@))
                }
            }
        }),
        phase matches PluginPhase::AwaitingDownload { query, entry } ==> (event matches
            PluginEvent::DownloadFinished(res) ==> {
            &&& res matches Err(m) ==> (r.0 matches PluginPhase::Failed { error }
                && error matches InstallError::NetworkError(s) && s@
                == "failed to download archive: "@ + m@ && r.1 is Abort)
            &&& res matches Ok(df) ==> {
                &&& !df.exists ==> (r.0 matches PluginPhase::Failed { error }
                    && error matches InstallError::IOError(s) && s@
                    == "temp file does not exist after download: "@ + df.path@ && r.1 is Abort)
                &&& df.exists ==> (r.0 matches PluginPhase::AwaitingArchive { query: q2, dir_name }
                    && q2 == query && dir_name == entry.file && (r.1
                    matches PluginAction::ReadArchive { path } && path == df.path))
            }
        }),
        phase matches PluginPhase::AwaitingArchive { query, dir_name } ==> (event matches
            PluginEvent::ArchiveRead(res) ==> {
            &&& res matches Err(m) ==> (r.0 matches PluginPhase::Failed { error }
                && error matches InstallError::IOError(s) && s@
                == "failed to read downloaded archive: "@ + m@ && r.1 is Abort)
            &&& res matches Ok(bytes) ==> {
                &&& zip_entries(bytes@) is None ==> r.0 is Failed
                &&& (zip_entries(bytes@) is Some && all_entries_safe(
                    zip_entries(bytes@).unwrap(),
                ) && archive_fully_decodable(bytes@)) ==> r.0 is AwaitingExtraction
                &&& r.0 is AwaitingExtraction || r.0 is Failed
                &&& r.0 matches PluginPhase::Failed { error } ==> (error is ExtractionError
                    && r.1 is Abort)
                &&& r.0 matches PluginPhase::AwaitingExtraction { query: q2, dir } ==> {
                    &&& q2 == query
                    &&& dir@ == join_path(cfg.plugins_root@, dir_name@)
                    &&& r.1 matches PluginAction::ApplyExtraction { dir: d2, plan }
                    &&& d2@ == dir@
                    &&& plan@.len() >= 1
                    &&& is_dir_action(plan@[0], dir@)
                    &&& zip_entries(bytes@) matches Some(es)
                    &&& plan_matches(plan@.skip(1), zip_entries(bytes@).unwrap(), dir@)
                    &&& all_entries_safe(zip_entries(bytes@).unwrap())
                }
            }
        }),
        phase matches PluginPhase::AwaitingExtraction { query, dir } ==> (event matches
            PluginEvent::ExtractionApplied(res) ==> {
            &&& res matches Err(m) ==> (r.0 matches PluginPhase::Failed { error }
                && error matches InstallError::ExtractionError(s) && s@
                == "failed to extract archive: "@ + m@ && r.1 is Abort)
            &&& res matches Ok(listing) ==> {
                &&& has_name(listing@, "main.ps1"@) ==> (r.0 matches PluginPhase::AwaitingMainFile {
                    query: q2,
                } && q2 == query && (r.1 matches PluginAction::ReadMainFile { path } && path@
                    == join_path(dir@, "main.ps1"@)))
                &&& (!has_name(listing@, "main.ps1"@) && has_name(listing@, "main.au3"@)) ==> (r.0
                    matches PluginPhase::AwaitingMainFile { query: q2 } && q2 == query && (r.1
                    matches PluginAction::ReadMainFile { path } && path@ == join_path(
                    dir@,
                    "main.au3"@,
                )))
                &&& (!has_name(listing@, "main.ps1"@) && !has_name(listing@, "main.au3"@)) ==> (r.0
                    matches PluginPhase::Failed { error }
                    && error matches InstallError::NotFoundError(d) && d@ == dir@ && r.1 is Abort)
            }
        }),
        phase matches PluginPhase::AwaitingMainFile { query } ==> (event matches
            PluginEvent::MainFileRead(res) ==> {
            &&& res matches Err(m) ==> (r.0 matches PluginPhase::Failed { error }
                && error matches InstallError::IOError(s) && s@ == "failed to read main file: "@
                + m@ && r.1 is Abort)
            &&& res matches Ok(bytes) ==> (r.0 matches PluginPhase::AwaitingRegistry { query: q2 }
                && q2 == query && (r.1 matches PluginAction::AppendRegistry { line } && line@
                == first_line_trimmed(bytes@)))
        }),
        phase matches PluginPhase::AwaitingRegistry { query } ==> (event matches
            PluginEvent::RegistryAppended(res) ==> {
            &&& res matches Err(m) ==> (r.0 matches PluginPhase::Failed { error }
                && error matches InstallError::IOError(s) && s@
                == "failed to update the plugin ledger: "@ + m@ && r.1 is Abort)
            &&& res is Ok ==> (r.0 matches PluginPhase::Succeeded { query: q2 } && q2 == query && (
            r.1 matches PluginAction::Report { message } && message@ == "Plugin '"@ + query@
                + "' installed successfully!"@))
        }),
{
    match (phase, event) {
        (PluginPhase::AwaitingManifest { query }, PluginEvent::ManifestFetched(body)) => {
            let text = match body {
                Ok(text) => text,
                Err(m) => {
                    return (
                        PluginPhase::Failed {
                            error: InstallError::NetworkError(
                                with_suffix("failed to fetch manifest: ", m.as_str()),
                            ),
                        },
                        PluginAction::Abort,
                    );
                },
            };
            let manifest = match parse_plugin_manifest(text.as_str(), cfg.repo_url.as_str()) {
                Ok(m) => m,
                Err(e) => {
                    return (PluginPhase::Failed { error: e }, PluginAction::Abort);
                },
            };
            let ghost rows = plugin_rows_of(text@).unwrap();
            let entry = match find_plugin(&manifest, query.as_str()) {
                Ok(e) => {
                    let entry = ManifestEntry { id: e.id.clone(), file: e.file.clone() };
                    proof {
                        let files = manifest.files@;
                        let i = choose|i: int|
                            0 <= i < files.len() && *e == files[i] && plugin_matches(
                                #[trigger] files[i],
                                query@,
                            ) && no_plugin_match_upto(files, query@, i);
                        assert(entry.id@ == rows[i].0 && entry.file@ == rows[i].1);
                        assert(row_matches_plugin(rows[i], query@));
                        assert forall|j: int| 0 <= j < i implies !row_matches_plugin(
                            #[trigger] rows[j],
                            query@,
                        ) by {
                            assert(!plugin_matches(files[j], query@));
                            assert(files[j].id@ == rows[j].0 && files[j].file@ == rows[j].1);
                        }
                        assert(no_plugin_row_match_upto(rows, query@, i));
                        assert(!no_plugin_row_match_upto(rows, query@, rows.len() as int));
                    }
                    entry
                },
                Err(e) => {
                    proof {
                        let files = manifest.files@;
                        assert forall|j: int| 0 <= j < rows.len() implies !row_matches_plugin(
                            #[trigger] rows[j],
                            query@,
                        ) by {
                            assert(!plugin_matches(files[j], query@));
                            assert(files[j].id@ == rows[j].0 && files[j].file@ == rows[j].1);
                        }
                        assert(no_plugin_row_match_upto(rows, query@, rows.len() as int));
                    }
                    return (PluginPhase::Failed { error: e }, PluginAction::Abort);
                },
            };
            let url = download_url(
                cfg.download_base_url.as_str(),
                entry.id.as_str(),
                entry.file.as_str(),
            );
            let file_name = with_suffix(entry.file.as_str(), ".zip");
            (
                PluginPhase::AwaitingDownload { query, entry },
                PluginAction::DownloadArchive { url, file_name },
            )
        },
        (PluginPhase::AwaitingDownload { query, entry }, PluginEvent::DownloadFinished(res)) => {
            let df = match res {
                Ok(df) => df,
                Err(m) => {
                    return (
                        PluginPhase::Failed {
                            error: InstallError::NetworkError(
                                with_suffix("failed to download archive: ", m.as_str()),
                            ),
                        },
                        PluginAction::Abort,
                    );
                },
            };
            if !df.exists {
                return (
                    PluginPhase::Failed {
                        error: InstallError::IOError(
                            with_suffix(
                                "temp file does not exist after download: ",
                                df.path.as_str(),
                            ),
                        ),
                    },
                    PluginAction::Abort,
                );
            }
            (
                PluginPhase::AwaitingArchive { query, dir_name: entry.file },
                PluginAction::ReadArchive { path: df.path },
            )
        },
        (PluginPhase::AwaitingArchive { query, dir_name }, PluginEvent::ArchiveRead(res)) => {
            let bytes = match res {
                Ok(bytes) => bytes,
                Err(m) => {
                    return (
                        PluginPhase::Failed {
                            error: InstallError::IOError(
                                with_suffix("failed to read downloaded archive: ", m.as_str()),
                            ),
                        },
                        PluginAction::Abort,
                    );
                },
            };
            let dir = join_dir(cfg.plugins_root.as_str(), dir_name.as_str());
            match extract_zip(bytes, dir.as_str()) {
                Ok(plan) => (
                    PluginPhase::AwaitingExtraction { query, dir: dir.clone() },
                    PluginAction::ApplyExtraction { dir, plan },
                ),
                Err(e) => (PluginPhase::Failed { error: e }, PluginAction::Abort),
            }
        },
        (PluginPhase::AwaitingExtraction { query, dir }, PluginEvent::ExtractionApplied(res)) => {
            let listing = match res {
                Ok(listing) => listing,
                Err(m) => {
                    return (
                        PluginPhase::Failed {
                            error: InstallError::ExtractionError(
                                with_suffix("failed to extract archive: ", m.as_str()),
                            ),
                        },
                        PluginAction::Abort,
                    );
                },
            };
            match find_main_file(dir.as_str(), &listing) {
                Ok(path) => (
                    PluginPhase::AwaitingMainFile { query },
                    PluginAction::ReadMainFile { path },
                ),
                Err(e) => (PluginPhase::Failed { error: e }, PluginAction::Abort),
            }
        },
        (PluginPhase::AwaitingMainFile { query }, PluginEvent::MainFileRead(res)) => {
            let bytes = match res {
                Ok(bytes) => bytes,
                Err(m) => {
                    return (
                        PluginPhase::Failed {
                            error: InstallError::IOError(
                                with_suffix("failed to read main file: ", m.as_str()),
                            ),
                        },
                        PluginAction::Abort,
                    );
                },
            };
            let line = read_first_line(&bytes);
            (PluginPhase::AwaitingRegistry { query }, PluginAction::AppendRegistry { line })
        },
        (PluginPhase::AwaitingRegistry { query }, PluginEvent::RegistryAppended(res)) => {
            match res {
                Ok(_) => {
                    let mut message = "Plugin '".to_owned();
                    message.append(query.as_str());
                    message.append("' installed successfully!");
                    proof {
                        assert(message@ =~= "Plugin '"@ + query@ + "' installed successfully!"@);
                    }
                    (PluginPhase::Succeeded { query }, PluginAction::Report { message })
                },
                Err(m) => (
                    PluginPhase::Failed {
                        error: InstallError::IOError(
                            with_suffix("failed to update the plugin ledger: ", m.as_str()),
                        ),
                    },
                    PluginAction::Abort,
                ),
            }
        },
        _ => {
            proof {
                assert(false);
            }
            unreached()
        },
    }
}

/// Where one software install stands.
pub enum SoftwarePhase {
    /// The apps manifest was requested.
    AwaitingManifest { query: String },
    /// The entry resolved; its installer was requested.
    AwaitingDownload { query: String, entry: AppEntry },
    /// The installer was downloaded and handed out to run.
    AwaitingInstaller { path: String },
    /// The installer exited; its temp file is being removed.
    AwaitingCleanup { installer_ok: bool },
    /// Cleanup done; the outcome is the installer's exit status.
    Finished { installer_ok: bool },
    /// A step failed; the install stops here.
    Failed { error: InstallError },
}

/// What the caller reports back after performing a software action.
pub enum SoftwareEvent {
    /// The manifest body, or the transport failure.
    ManifestFetched(Result<String, String>),
    /// Where the installer was downloaded to, or the transport failure.
    DownloadFinished(Result<String, String>),
    /// Whether the installer process exited successfully, or the spawn
    /// failure when it could not be run at all.
    InstallerExited(Result<bool, String>),
    /// Whether removing the temporary installer file succeeded.
    TempFileRemoved(Result<(), String>),
}

/// What the caller must do next for a software install.
pub enum SoftwareAction {
    /// Fetch this URL's body as text.
    FetchManifest { url: String },
    /// Download this URL to a temporary file with this name.
    DownloadInstaller { url: String, file_name: String },
    /// Run this file as a child process and wait for it.
    RunInstaller { path: String },
    /// Delete this file, whatever the installer's outcome was.
    RemoveFile { path: String },
    /// Print the outcome message; the install is done.
    Report { message: String },
    /// Stop; the phase holds the error.
    Abort,
}

/// Which event each software phase awaits.  Terminal phases await none.
pub open spec fn software_expects(phase: SoftwarePhase, event: SoftwareEvent) -> bool {
    match phase {
        SoftwarePhase::AwaitingManifest { .. } => event is ManifestFetched,
        SoftwarePhase::AwaitingDownload { .. } => event is DownloadFinished,
        SoftwarePhase::AwaitingInstaller { .. } => event is InstallerExited,
        SoftwarePhase::AwaitingCleanup { .. } => event is TempFileRemoved,
        SoftwarePhase::Finished { .. } => false,
        SoftwarePhase::Failed { .. } => false,
    }
}

/// Starts one software install: the apps manifest is fetched first.
pub fn start_software_install(cfg: &InstallerConfig, query: &str) -> (r: (
    SoftwarePhase,
    SoftwareAction,
))
    ensures
        r.0 matches SoftwarePhase::AwaitingManifest { query: q } && q@ == query@,
        r.1 matches SoftwareAction::FetchManifest { url } && url@ == cfg.apps_url@,
{
    (
        SoftwarePhase::AwaitingManifest { query: query.to_owned() },
        SoftwareAction::FetchManifest { url: cfg.apps_url.clone() },
    )
}

/// One step of a software install: consumes the phase and the event it
/// awaited, and yields the next phase with the next action.
pub fn software_step(cfg: &InstallerConfig, phase: SoftwarePhase, event: SoftwareEvent) -> (r: (
    SoftwarePhase,
    SoftwareAction,
))
    requires
        software_expects(phase, event),
    ensures
        phase matches SoftwarePhase::AwaitingManifest { query } ==> (event matches
            SoftwareEvent::ManifestFetched(body) ==> {
            &&& body matches Err(m) ==> (r.0 matches SoftwarePhase::Failed { error }
                && error matches InstallError::NetworkError(s) && s@
                == "failed to fetch apps manifest: "@ + m@ && r.1 is Abort)
            &&& body matches Ok(text) ==> {
                &&& apps_rows_of(text@) is None ==> (r.0 matches SoftwarePhase::Failed { error }
                    && error matches InstallError::ParseError(s) && ends_with(s@, cfg.apps_url@)
                    && r.1 is Abort)
                &&& apps_rows_of(text@) matches Some(rows) ==> {
                    &&& no_app_row_match_upto(rows, lower_of(query@), rows.len() as int) ==> (r.0
                        matches SoftwarePhase::Failed { error }
                        && error matches InstallError::NotFoundError(q) && q@ == query@
                        && r.1 is Abort)
                    &&& !no_app_row_match_upto(rows, lower_of(query@), rows.len() as int) ==> (r.0
                        matches SoftwarePhase::AwaitingDownload { query: q2, entry } && q2 == query
                        && (exists|i: int|
                        0 <= i < rows.len() && entry.name@ == rows[i].0 && entry.url@ == rows[i].1
                            && row_matches_app(#[trigger] rows[i], lower_of(query@))
                            && no_app_row_match_upto(rows, lower_of(query@), i)) && (r.1
                        matches SoftwareAction::DownloadInstaller { url, file_name } && url
                        == entry.url && file_name@ == entry.name@ + ".exe"@))
                }
            }
        }),
        phase matches SoftwarePhase::AwaitingDownload { query, entry } ==> (event matches
            SoftwareEvent::DownloadFinished(res) ==> {
            &&& res matches Err(m) ==> (r.0 matches SoftwarePhase::Failed { error }
                && error matches InstallError::NetworkError(s) && s@
                == "failed to download installer: "@ + m@ && r.1 is Abort)
            &&& res matches Ok(path) ==> (r.0 matches SoftwarePhase::AwaitingInstaller { path: p2 }
                && p2 == path && (r.1 matches SoftwareAction::RunInstaller { path: p3 } && p3
                == path))
        }),
        phase matches SoftwarePhase::AwaitingInstaller { path } ==> (event matches
            SoftwareEvent::InstallerExited(res) ==> {
            &&& res matches Ok(success) ==> (r.0 matches SoftwarePhase::AwaitingCleanup {
                installer_ok,
            } && installer_ok == success && (r.1 matches SoftwareAction::RemoveFile { path: p2 }
                && p2 == path))
            &&& res matches Err(m) ==> (r.0 matches SoftwarePhase::Failed { error }
                && error matches InstallError::IOError(s) && s@
                == "failed to execute installer: "@ + m@ && r.1 is Abort)
        }),
        phase matches SoftwarePhase::AwaitingCleanup { installer_ok } ==> (event matches
            SoftwareEvent::TempFileRemoved(res) ==> {
            &&& res matches Err(m) ==> (r.0 matches SoftwarePhase::Failed { error }
                && error matches InstallError::IOError(s) && s@ == "failed to remove temp file: "@
                + m@ && r.1 is Abort)
            &&& res is Ok ==> (r.0 matches SoftwarePhase::Finished { installer_ok: ok2 } && ok2
                == installer_ok && (r.1 matches SoftwareAction::Report { message } && message@ == (
            if installer_ok {
                "Installation completed successfully."@
            } else {
                "Installation failed or was cancelled by the user."@
            })))
        }),
{
    match (phase, event) {
        (SoftwarePhase::AwaitingManifest { query }, SoftwareEvent::ManifestFetched(body)) => {
            let text = match body {
                Ok(text) => text,
                Err(m) => {
                    return (
                        SoftwarePhase::Failed {
                            error: InstallError::NetworkError(
                                with_suffix("failed to fetch apps manifest: ", m.as_str()),
                            ),
                        },
                        SoftwareAction::Abort,
                    );
                },
            };
            let manifest = match parse_apps_manifest(text.as_str(), cfg.apps_url.as_str()) {
                Ok(m) => m,
                Err(e) => {
                    return (SoftwarePhase::Failed { error: e }, SoftwareAction::Abort);
                },
            };
            let ghost rows = apps_rows_of(text@).unwrap();
            let entry = match find_app(&manifest, query.as_str()) {
                Ok(e) => {
                    let entry = AppEntry { name: e.name.clone(), url: e.url.clone() };
                    proof {
                        let apps = manifest.apps@;
                        let i = choose|i: int|
                            0 <= i < apps.len() && *e == apps[i] && app_matches(
                                #[trigger] apps[i],
                                lower_of(query@),
                            ) && no_app_match_upto(apps, lower_of(query@), i);
                        assert(entry.name@ == rows[i].0 && entry.url@ == rows[i].1);
                        assert(row_matches_app(rows[i], lower_of(query@)));
                        assert forall|j: int| 0 <= j < i implies !row_matches_app(
                            #[trigger] rows[j],
                            lower_of(query@),
                        ) by {
                            assert(!app_matches(apps[j], lower_of(query@)));
                            assert(apps[j].name@ == rows[j].0);
                        }
                        assert(no_app_row_match_upto(rows, lower_of(query@), i));
                        assert(!no_app_row_match_upto(rows, lower_of(query@), rows.len() as int));
                    }
                    entry
                },
                Err(e) => {
                    proof {
                        let apps = manifest.apps@;
                        assert forall|j: int| 0 <= j < rows.len() implies !row_matches_app(
                            #[trigger] rows[j],
                            lower_of(query@),
                        ) by {
                            assert(!app_matches(apps[j], lower_of(query@)));
                            assert(apps[j].name@ == rows[j].0);
                        }
                        assert(no_app_row_match_upto(rows, lower_of(query@), rows.len() as int));
                    }
                    return (SoftwarePhase::Failed { error: e }, SoftwareAction::Abort);
                },
            };
            let url = entry.url.clone();
            let file_name = with_suffix(entry.name.as_str(), ".exe");
            (
                SoftwarePhase::AwaitingDownload { query, entry },
                SoftwareAction::DownloadInstaller { url, file_name },
            )
        },
        (SoftwarePhase::AwaitingDownload { query: _, entry: _ }, SoftwareEvent::DownloadFinished(
            res,
        )) => {
            let path = match res {
                Ok(path) => path,
                Err(m) => {
                    return (
                        SoftwarePhase::Failed {
                            error: InstallError::NetworkError(
                                with_suffix("failed to download installer: ", m.as_str()),
                            ),
                        },
                        SoftwareAction::Abort,
                    );
                },
            };
            (
                SoftwarePhase::AwaitingInstaller { path: path.clone() },
                SoftwareAction::RunInstaller { path },
            )
        },
        (SoftwarePhase::AwaitingInstaller { path }, SoftwareEvent::InstallerExited(res)) => {
            match res {
                Ok(success) => (
                    SoftwarePhase::AwaitingCleanup { installer_ok: success },
                    SoftwareAction::RemoveFile { path },
                ),
                Err(m) => (
                    SoftwarePhase::Failed {
                        error: InstallError::IOError(
                            with_suffix("failed to execute installer: ", m.as_str()),
                        ),
                    },
                    SoftwareAction::Abort,
                ),
            }
        },
        (SoftwarePhase::AwaitingCleanup { installer_ok }, SoftwareEvent::TempFileRemoved(res)) => {
            match res {
                Ok(_) => {
                    let message = if installer_ok {
                        "Installation completed successfully.".to_owned()
                    } else {
                        "Installation failed or was cancelled by the user.".to_owned()
                    };
                    (
                        SoftwarePhase::Finished { installer_ok },
                        SoftwareAction::Report { message },
                    )
                },
                Err(m) => (
                    SoftwarePhase::Failed {
                        error: InstallError::IOError(
                            with_suffix("failed to remove temp file: ", m.as_str()),
                        ),
                    },
                    SoftwareAction::Abort,
                ),
            }
        },
        _ => {
            proof {
                assert(false);
            }
            unreached()
        },
    }
}

} // verus!
