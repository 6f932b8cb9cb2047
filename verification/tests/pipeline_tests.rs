use std::io::Write;

use wlexcli::errors::InstallError;
use wlexcli::pipeline::{
    plugin_step, software_step, start_local_plugin_install, start_plugin_install,
    start_software_install, DownloadedFile, InstallerConfig, PluginAction, PluginEvent,
    PluginPhase, SoftwareAction, SoftwareEvent, SoftwarePhase,
};
use wlexcli::progress::DownloadProgress;

fn config() -> InstallerConfig {
    InstallerConfig {
        repo_url: "https://example.test/repo.json".to_string(),
        apps_url: "https://example.test/apps.json".to_string(),
        download_base_url: "https://example.test/archives".to_string(),
        plugins_root: "/plugins".to_string(),
    }
}

fn one_file_zip(name: &str, data: &[u8]) -> Vec<u8> {
    let cursor = std::io::Cursor::new(Vec::new());
    let mut writer = zip::ZipWriter::new(cursor);
    writer
        .start_file(name, zip::write::SimpleFileOptions::default())
        .unwrap();
    writer.write_all(data).unwrap();
    writer.finish().unwrap().into_inner()
}

#[test]
fn plugin_pipeline_walks_every_step() {
    let cfg = config();
    let (phase, action) = start_plugin_install(&cfg, "42");
    match &action {
        PluginAction::FetchManifest { url } => assert_eq!(url, "https://example.test/repo.json"),
        other => panic!("unexpected action {:?}", kind_of(other)),
    }

    let manifest = r#"{"files":[{"id":"42","file":"pkg-a"}]}"#.to_string();
    let (phase, action) = plugin_step(&cfg, phase, PluginEvent::ManifestFetched(Ok(manifest)));
    match &action {
        PluginAction::DownloadArchive { url, file_name } => {
            assert_eq!(url, "https://example.test/archives/42/pkg-a.zip");
            assert_eq!(file_name, "pkg-a.zip");
        }
        other => panic!("unexpected action {:?}", kind_of(other)),
    }

    let df = DownloadedFile { path: "/tmp/pkg-a.zip".to_string(), exists: true };
    let (phase, action) = plugin_step(&cfg, phase, PluginEvent::DownloadFinished(Ok(df)));
    match &action {
        PluginAction::ReadArchive { path } => assert_eq!(path, "/tmp/pkg-a.zip"),
        other => panic!("unexpected action {:?}", kind_of(other)),
    }

    let bytes = one_file_zip("main.ps1", b"Write-Host 'hi'\nrest\n");
    let (phase, action) = plugin_step(&cfg, phase, PluginEvent::ArchiveRead(Ok(bytes)));
    let plan_len = match &action {
        PluginAction::ApplyExtraction { dir, plan } => {
            assert_eq!(dir, "/plugins/pkg-a");
            plan.len()
        }
        other => panic!("unexpected action {:?}", kind_of(other)),
    };
    assert_eq!(plan_len, 3);

    let listing = vec!["main.ps1".to_string()];
    let (phase, action) = plugin_step(&cfg, phase, PluginEvent::ExtractionApplied(Ok(listing)));
    match &action {
        PluginAction::ReadMainFile { path } => assert_eq!(path, "/plugins/pkg-a/main.ps1"),
        other => panic!("unexpected action {:?}", kind_of(other)),
    }

    let main_bytes = b"Write-Host 'hi'\nrest\n".to_vec();
    let (phase, action) = plugin_step(&cfg, phase, PluginEvent::MainFileRead(Ok(main_bytes)));
    match &action {
        PluginAction::AppendRegistry { line } => assert_eq!(line, &b"Write-Host 'hi'".to_vec()),
        other => panic!("unexpected action {:?}", kind_of(other)),
    }

    let (phase, action) = plugin_step(&cfg, phase, PluginEvent::RegistryAppended(Ok(())));
    match &action {
        PluginAction::Report { message } => {
            assert_eq!(message, "Plugin '42' installed successfully!")
        }
        other => panic!("unexpected action {:?}", kind_of(other)),
    }
    assert!(matches!(phase, PluginPhase::Succeeded { query } if query == "42"));
}

#[test]
fn plugin_pipeline_wraps_transport_failure() {
    let cfg = config();
    let (phase, _) = start_plugin_install(&cfg, "42");
    let (phase, action) =
        plugin_step(&cfg, phase, PluginEvent::ManifestFetched(Err("timed out".to_string())));
    assert!(matches!(action, PluginAction::Abort));
    match phase {
        PluginPhase::Failed { error: InstallError::NetworkError(msg) } => {
            assert_eq!(msg, "failed to fetch manifest: timed out");
        }
        other => panic!("unexpected phase {:?}", phase_kind(&other)),
    }
}

#[test]
fn plugin_pipeline_fails_on_unknown_query() {
    let cfg = config();
    let (phase, _) = start_plugin_install(&cfg, "nope");
    let manifest = r#"{"files":[{"id":"42","file":"pkg-a"}]}"#.to_string();
    let (phase, _) = plugin_step(&cfg, phase, PluginEvent::ManifestFetched(Ok(manifest)));
    match phase {
        PluginPhase::Failed { error } => {
            assert_eq!(error, InstallError::NotFoundError("nope".to_string()));
        }
        other => panic!("unexpected phase {:?}", phase_kind(&other)),
    }
}

#[test]
fn plugin_pipeline_fails_when_download_vanished() {
    let cfg = config();
    let (phase, _) = start_plugin_install(&cfg, "42");
    let manifest = r#"{"files":[{"id":"42","file":"pkg-a"}]}"#.to_string();
    let (phase, _) = plugin_step(&cfg, phase, PluginEvent::ManifestFetched(Ok(manifest)));
    let df = DownloadedFile { path: "/tmp/pkg-a.zip".to_string(), exists: false };
    let (phase, _) = plugin_step(&cfg, phase, PluginEvent::DownloadFinished(Ok(df)));
    match phase {
        PluginPhase::Failed { error: InstallError::IOError(msg) } => {
            assert_eq!(msg, "temp file does not exist after download: /tmp/pkg-a.zip");
        }
        other => panic!("unexpected phase {:?}", phase_kind(&other)),
    }
}

#[test]
fn plugin_pipeline_fails_when_no_main_file() {
    let cfg = config();
    let (phase, _) = start_plugin_install(&cfg, "42");
    let manifest = r#"{"files":[{"id":"42","file":"pkg-a"}]}"#.to_string();
    let (phase, _) = plugin_step(&cfg, phase, PluginEvent::ManifestFetched(Ok(manifest)));
    let df = DownloadedFile { path: "/tmp/pkg-a.zip".to_string(), exists: true };
    let (phase, _) = plugin_step(&cfg, phase, PluginEvent::DownloadFinished(Ok(df)));
    let bytes = one_file_zip("readme.txt", b"no entry point");
    let (phase, _) = plugin_step(&cfg, phase, PluginEvent::ArchiveRead(Ok(bytes)));
    let listing = vec!["readme.txt".to_string()];
    let (phase, _) = plugin_step(&cfg, phase, PluginEvent::ExtractionApplied(Ok(listing)));
    match phase {
        PluginPhase::Failed { error } => {
            assert_eq!(error, InstallError::NotFoundError("/plugins/pkg-a".to_string()));
        }
        other => panic!("unexpected phase {:?}", phase_kind(&other)),
    }
}

#[test]
fn local_plugin_install_derives_directory_from_stem() {
    let (phase, action) = start_local_plugin_install("/downloads/my-plugin.zip");
    match &action {
        PluginAction::ReadArchive { path } => assert_eq!(path, "/downloads/my-plugin.zip"),
        other => panic!("unexpected action {:?}", kind_of(other)),
    }
    let cfg = config();
    let bytes = one_file_zip("main.au3", b"Run('x')\n");
    let (_, action) = plugin_step(&cfg, phase, PluginEvent::ArchiveRead(Ok(bytes)));
    match &action {
        PluginAction::ApplyExtraction { dir, .. } => assert_eq!(dir, "/plugins/my-plugin"),
        other => panic!("unexpected action {:?}", kind_of(other)),
    }
}

#[test]
fn software_pipeline_walks_every_step() {
    let cfg = config();
    let (phase, action) = start_software_install(&cfg, "tool");
    match &action {
        SoftwareAction::FetchManifest { url } => assert_eq!(url, "https://example.test/apps.json"),
        other => panic!("unexpected action {:?}", sw_kind(other)),
    }

    let manifest = r#"{"apps":[{"name":"Tool","url":"http://x/installer.exe"}]}"#.to_string();
    let (phase, action) = software_step(&cfg, phase, SoftwareEvent::ManifestFetched(Ok(manifest)));
    match &action {
        SoftwareAction::DownloadInstaller { url, file_name } => {
            assert_eq!(url, "http://x/installer.exe");
            assert_eq!(file_name, "Tool.exe");
        }
        other => panic!("unexpected action {:?}", sw_kind(other)),
    }

    let (phase, action) =
        software_step(&cfg, phase, SoftwareEvent::DownloadFinished(Ok("/tmp/Tool.exe".to_string())));
    match &action {
        SoftwareAction::RunInstaller { path } => assert_eq!(path, "/tmp/Tool.exe"),
        other => panic!("unexpected action {:?}", sw_kind(other)),
    }

    let (phase, action) = software_step(&cfg, phase, SoftwareEvent::InstallerExited(Ok(true)));
    match &action {
        SoftwareAction::RemoveFile { path } => assert_eq!(path, "/tmp/Tool.exe"),
        other => panic!("unexpected action {:?}", sw_kind(other)),
    }

    let (phase, action) = software_step(&cfg, phase, SoftwareEvent::TempFileRemoved(Ok(())));
    match &action {
        SoftwareAction::Report { message } => {
            assert_eq!(message, "Installation completed successfully.")
        }
        other => panic!("unexpected action {:?}", sw_kind(other)),
    }
    assert!(matches!(phase, SoftwarePhase::Finished { installer_ok: true }));
}

#[test]
fn software_pipeline_reports_cancelled_installer() {
    let cfg = config();
    let (phase, _) = start_software_install(&cfg, "tool");
    let manifest = r#"{"apps":[{"name":"Tool","url":"http://x/installer.exe"}]}"#.to_string();
    let (phase, _) = software_step(&cfg, phase, SoftwareEvent::ManifestFetched(Ok(manifest)));
    let (phase, _) =
        software_step(&cfg, phase, SoftwareEvent::DownloadFinished(Ok("/tmp/Tool.exe".to_string())));
    let (phase, _) = software_step(&cfg, phase, SoftwareEvent::InstallerExited(Ok(false)));
    let (phase, action) = software_step(&cfg, phase, SoftwareEvent::TempFileRemoved(Ok(())));
    match &action {
        SoftwareAction::Report { message } => {
            assert_eq!(message, "Installation failed or was cancelled by the user.")
        }
        other => panic!("unexpected action {:?}", sw_kind(other)),
    }
    assert!(matches!(phase, SoftwarePhase::Finished { installer_ok: false }));
}

#[test]
fn software_pipeline_wraps_installer_spawn_failure() {
    let cfg = config();
    let (phase, _) = start_software_install(&cfg, "tool");
    let manifest = r#"{"apps":[{"name":"Tool","url":"http://x/installer.exe"}]}"#.to_string();
    let (phase, _) = software_step(&cfg, phase, SoftwareEvent::ManifestFetched(Ok(manifest)));
    let (phase, _) =
        software_step(&cfg, phase, SoftwareEvent::DownloadFinished(Ok("/tmp/Tool.exe".to_string())));
    let (phase, action) =
        software_step(&cfg, phase, SoftwareEvent::InstallerExited(Err("no such file".to_string())));
    assert!(matches!(action, SoftwareAction::Abort));
    match phase {
        SoftwarePhase::Failed { error: InstallError::IOError(msg) } => {
            assert_eq!(msg, "failed to execute installer: no such file");
        }
        _ => panic!("expected an I/O failure phase"),
    }
}

#[test]
fn local_plugin_install_rejects_path_without_file_name() {
    let (phase, action) = start_local_plugin_install("/downloads/");
    assert!(matches!(action, PluginAction::Abort));
    match phase {
        PluginPhase::Failed { error: InstallError::IOError(msg) } => {
            assert_eq!(msg, "no file name in local path: /downloads/");
        }
        _ => panic!("expected an I/O failure phase"),
    }
}

#[test]
fn software_pipeline_resolves_case_insensitively() {
    let cfg = config();
    let (phase, _) = start_software_install(&cfg, "TOOL");
    let manifest = r#"{"apps":[{"name":"Tool","url":"http://x/installer.exe"}]}"#.to_string();
    let (_, action) = software_step(&cfg, phase, SoftwareEvent::ManifestFetched(Ok(manifest)));
    assert!(matches!(action, SoftwareAction::DownloadInstaller { .. }));
}

#[test]
fn download_progress_counts_all_bytes_and_clamps_reporting() {
    let mut p = DownloadProgress::new(Some(10));
    p.on_chunk(4);
    assert_eq!((p.received, p.reported), (4, 4));
    p.on_chunk(4);
    assert_eq!((p.received, p.reported), (8, 8));
    p.on_chunk(4);
    assert_eq!((p.received, p.reported), (12, 10));
}

#[test]
fn download_progress_with_unknown_length_still_counts() {
    let mut p = DownloadProgress::new(None);
    assert_eq!(p.total, 0);
    p.on_chunk(7);
    p.on_chunk(5);
    assert_eq!(p.received, 12);
    assert_eq!(p.reported, 0);
}

fn kind_of(a: &PluginAction) -> &'static str {
    match a {
        PluginAction::FetchManifest { .. } => "FetchManifest",
        PluginAction::DownloadArchive { .. } => "DownloadArchive",
        PluginAction::ReadArchive { .. } => "ReadArchive",
        PluginAction::ApplyExtraction { .. } => "ApplyExtraction",
        PluginAction::ReadMainFile { .. } => "ReadMainFile",
        PluginAction::AppendRegistry { .. } => "AppendRegistry",
        PluginAction::Report { .. } => "Report",
        PluginAction::Abort => "Abort",
    }
}

fn phase_kind(p: &PluginPhase) -> &'static str {
    match p {
        PluginPhase::AwaitingManifest { .. } => "AwaitingManifest",
        PluginPhase::AwaitingDownload { .. } => "AwaitingDownload",
        PluginPhase::AwaitingArchive { .. } => "AwaitingArchive",
        PluginPhase::AwaitingExtraction { .. } => "AwaitingExtraction",
        PluginPhase::AwaitingMainFile { .. } => "AwaitingMainFile",
        PluginPhase::AwaitingRegistry { .. } => "AwaitingRegistry",
        PluginPhase::Succeeded { .. } => "Succeeded",
        PluginPhase::Failed { .. } => "Failed",
    }
}

fn sw_kind(a: &SoftwareAction) -> &'static str {
    match a {
        SoftwareAction::FetchManifest { .. } => "FetchManifest",
        SoftwareAction::DownloadInstaller { .. } => "DownloadInstaller",
        SoftwareAction::RunInstaller { .. } => "RunInstaller",
        SoftwareAction::RemoveFile { .. } => "RemoveFile",
        SoftwareAction::Report { .. } => "Report",
        SoftwareAction::Abort => "Abort",
    }
}
