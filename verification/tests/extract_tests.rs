use std::collections::HashMap;
use std::io::Write;

use wlexcli::errors::InstallError;
use wlexcli::extract::{entry_name_safe, extract_zip, ExtractAction};
use wlexcli::lines::{append_to_plugins_inst, read_first_line};
use wlexcli::locate::find_main_file;
use wlexcli::paths::{base_name, download_url, file_stem, join_dir, parent_dir, with_suffix};

fn zip_of(entries: &[(&str, Option<&[u8]>)]) -> Vec<u8> {
    let cursor = std::io::Cursor::new(Vec::new());
    let mut writer = zip::ZipWriter::new(cursor);
    let options = zip::write::SimpleFileOptions::default();
    for (name, data) in entries {
        match data {
            Some(bytes) => {
                writer.start_file(*name, options).unwrap();
                writer.write_all(bytes).unwrap();
            }
            None => {
                writer.add_directory(*name, options).unwrap();
            }
        }
    }
    writer.finish().unwrap().into_inner()
}

fn apply(plan: &[ExtractAction]) -> (HashMap<String, Vec<u8>>, Vec<String>) {
    let mut files: HashMap<String, Vec<u8>> = HashMap::new();
    let mut dirs: Vec<String> = Vec::new();
    for action in plan {
        match action {
            ExtractAction::EnsureDir(d) => dirs.push(d.clone()),
            ExtractAction::WriteFile(p, d) => {
                files.insert(p.clone(), d.clone());
            }
        }
    }
    (files, dirs)
}

#[test]
fn extract_plans_root_then_entries_in_order() {
    let bytes = zip_of(&[
        ("sub/", None),
        ("sub/inner.txt", Some(b"inner".as_slice())),
        ("main.ps1", Some(b"Write-Host hi\nrest".as_slice())),
    ]);
    let plan = extract_zip(bytes, "/plugins/pkg-a").unwrap();
    assert!(matches!(&plan[0], ExtractAction::EnsureDir(d) if d == "/plugins/pkg-a"));
    assert!(matches!(&plan[1], ExtractAction::EnsureDir(d) if d == "/plugins/pkg-a/sub/"));
    assert!(matches!(&plan[2], ExtractAction::EnsureDir(d) if d == "/plugins/pkg-a/sub"));
    assert!(
        matches!(&plan[3], ExtractAction::WriteFile(p, d) if p == "/plugins/pkg-a/sub/inner.txt" && d == b"inner")
    );
    assert!(matches!(&plan[4], ExtractAction::EnsureDir(d) if d == "/plugins/pkg-a"));
    assert!(matches!(&plan[5], ExtractAction::WriteFile(p, _) if p == "/plugins/pkg-a/main.ps1"));
    assert_eq!(plan.len(), 6);
}

#[test]
fn extract_rejects_garbage_bytes() {
    let err = extract_zip(vec![1, 2, 3, 4], "/plugins/x").unwrap_err();
    assert!(matches!(err, InstallError::ExtractionError(_)));
}

#[test]
fn extract_rejects_traversal_entry() {
    let bytes = zip_of(&[("../evil.txt", Some(b"boom".as_slice()))]);
    let err = extract_zip(bytes, "/plugins/x").unwrap_err();
    match err {
        InstallError::ExtractionError(msg) => assert!(msg.contains("escapes")),
        other => panic!("expected ExtractionError, got {:?}", other),
    }
}

#[test]
fn extract_of_empty_archive_plans_only_the_root() {
    let bytes = zip_of(&[]);
    let plan = extract_zip(bytes, "/plugins/empty").unwrap();
    assert_eq!(plan.len(), 1);
    assert!(matches!(&plan[0], ExtractAction::EnsureDir(d) if d == "/plugins/empty"));
}

#[test]
fn entry_name_safety_check() {
    assert!(entry_name_safe("main.ps1"));
    assert!(entry_name_safe("sub/inner.txt"));
    assert!(entry_name_safe("..name"));
    assert!(entry_name_safe("a..b/c"));
    assert!(entry_name_safe("a/..b"));
    assert!(!entry_name_safe("../evil"));
    assert!(!entry_name_safe("a/../b"));
    assert!(!entry_name_safe("a/.."));
    assert!(!entry_name_safe("/abs"));
    assert!(!entry_name_safe("\\abs"));
    assert!(!entry_name_safe("a\\..\\b"));
}

#[test]
fn round_trip_first_line_reaches_the_ledger() {
    let first = "  Write-Host 'hello'  ";
    let contents = format!("{}\r\nWrite-Host 'rest'\n", first);
    let bytes = zip_of(&[("main.ps1", Some(contents.as_bytes()))]);
    let plan = extract_zip(bytes, "/plugins/pkg-a").unwrap();
    let (files, _) = apply(&plan);
    let listing: Vec<String> = vec!["main.ps1".to_string()];
    let main_path = find_main_file("/plugins/pkg-a", &listing).unwrap();
    assert_eq!(main_path, "/plugins/pkg-a/main.ps1");
    let main_bytes = files.get(&main_path).unwrap().clone();
    let line = read_first_line(&main_bytes);
    assert_eq!(line, b"Write-Host 'hello'".to_vec());
    let mut ledger: Vec<u8> = Vec::new();
    append_to_plugins_inst(&mut ledger, &line);
    assert_eq!(ledger, b"Write-Host 'hello'\n".to_vec());
}

#[test]
fn repeated_install_appends_duplicate_lines() {
    let line = b"Write-Host 'hello'".to_vec();
    let mut ledger: Vec<u8> = b"older entry\n".to_vec();
    append_to_plugins_inst(&mut ledger, &line);
    append_to_plugins_inst(&mut ledger, &line);
    assert_eq!(
        ledger,
        b"older entry\nWrite-Host 'hello'\nWrite-Host 'hello'\n".to_vec()
    );
    let lines: Vec<&[u8]> = ledger.split(|b| *b == b'\n').collect();
    assert_eq!(lines[1], lines[2]);
}

#[test]
fn find_main_file_prefers_ps1_then_au3() {
    let both = vec!["main.ps1".to_string(), "main.au3".to_string()];
    assert_eq!(find_main_file("/plugins/pkg-a", &both).unwrap(), "/plugins/pkg-a/main.ps1");
    let only_au3 = vec!["readme.txt".to_string(), "main.au3".to_string()];
    assert_eq!(find_main_file("/plugins/pkg-a", &only_au3).unwrap(), "/plugins/pkg-a/main.au3");
    let neither = vec!["readme.txt".to_string()];
    let err = find_main_file("/plugins/pkg-a", &neither).unwrap_err();
    assert_eq!(err, InstallError::NotFoundError("/plugins/pkg-a".to_string()));
}

#[test]
fn read_first_line_trims_and_handles_edges() {
    assert_eq!(read_first_line(&b"  line one \t\r\nsecond".to_vec()), b"line one".to_vec());
    assert_eq!(read_first_line(&b"no newline".to_vec()), b"no newline".to_vec());
    assert_eq!(read_first_line(&Vec::new()), Vec::<u8>::new());
    assert_eq!(read_first_line(&b" \r\n\r\n".to_vec()), Vec::<u8>::new());
    assert_eq!(read_first_line(&b"\nsecond".to_vec()), Vec::<u8>::new());
}

#[test]
fn path_helpers_build_the_documented_shapes() {
    assert_eq!(
        download_url("https://base", "42", "pkg-a"),
        "https://base/42/pkg-a.zip"
    );
    assert_eq!(join_dir("/plugins", "pkg-a"), "/plugins/pkg-a");
    assert_eq!(with_suffix("pkg-a", ".zip"), "pkg-a.zip");
    assert_eq!(parent_dir("/plugins/pkg-a/main.ps1"), "/plugins/pkg-a");
    assert_eq!(parent_dir("noseparator"), "");
    assert_eq!(base_name("C:\\downloads\\archive.zip"), "archive.zip");
    assert_eq!(base_name("/tmp/archive.zip"), "archive.zip");
    assert_eq!(file_stem("/tmp/my-plugin.zip"), "my-plugin");
    assert_eq!(file_stem("C:\\tmp\\pkg.tar.gz"), "pkg.tar");
    assert_eq!(file_stem("noext"), "noext");
    assert_eq!(file_stem("/tmp/.bashrc"), ".bashrc");
    assert_eq!(file_stem("/tmp/trailing."), "trailing");
}
