use std::io::Read;

use omni_cli::archive::{ArchiveBuildError, ArchiveJob, ArchiveStep};
use omni_cli::model::DeployPermissions;
use omni_cli::paths::{classify_item, collect_entries, count_files, EntryKind, FileEntry, ItemOutcome, WalkItem};
use omni_cli::quota::{quota_gate, GateOutcome};
use omni_cli::upload::{archive_file_name, upload_outcome};

fn item(path: &str, kind: EntryKind) -> WalkItem {
    WalkItem { path: path.to_string(), kind }
}

fn project_walk(files: usize) -> Vec<WalkItem> {
    let mut walk = vec![item("/work/app", EntryKind::Directory), item("/work/app/src", EntryKind::Directory)];
    for i in 0..files {
        walk.push(item(&format!("/work/app/src/f{}.txt", i), EntryKind::File));
    }
    walk
}

fn cleared(entries: Vec<FileEntry>, limit: u64) -> omni_cli::quota::Clearance {
    match quota_gate(entries, Some(DeployPermissions { max_file_count: limit })) {
        GateOutcome::Cleared(c) => c,
        _ => panic!("expected the project to be cleared"),
    }
}

/// Runs a build, handing file contents from `content`, and returns the gzip bytes.
fn build(job: &mut ArchiveJob, content: &dyn Fn(&str) -> Vec<u8>) {
    loop {
        match job.next_step() {
            ArchiveStep::AddDirectory(_) => job.add_directory().unwrap(),
            ArchiveStep::AddFile(p) => job.add_file(content(&p)).unwrap(),
            ArchiveStep::Finish => break,
        }
    }
}

fn extract(bytes: &[u8]) -> Vec<(String, bool, u64, Vec<u8>, u32)> {
    let gz = flate2::read::GzDecoder::new(bytes);
    let mut archive = tar::Archive::new(gz);
    let mut out = Vec::new();
    for e in archive.entries().unwrap() {
        let mut e = e.unwrap();
        let path = e.path().unwrap().to_string_lossy().trim_end_matches('/').to_string();
        let is_dir = e.header().entry_type().is_dir();
        let size = e.header().size().unwrap();
        let mode = e.header().mode().unwrap();
        let mut data = Vec::new();
        e.read_to_end(&mut data).unwrap();
        out.push((path, is_dir, size, data, mode));
    }
    out
}

#[test]
fn collect_skips_root_and_other_items() {
    let walk = vec![
        item("/work/app", EntryKind::Directory),
        item("/work/app/README.md", EntryKind::File),
        item("/work/app/docs", EntryKind::Directory),
        item("/work/app/docs/link", EntryKind::Other),
        item("/work/app/docs/guide.md", EntryKind::File),
    ];
    let entries = collect_entries("/work/app", &walk).unwrap();
    let got: Vec<(String, bool)> = entries.iter().map(|e| (e.relative_path().clone(), e.is_dir())).collect();
    assert_eq!(
        got,
        vec![
            ("README.md".to_string(), false),
            ("docs".to_string(), true),
            ("docs/guide.md".to_string(), false),
        ]
    );
    assert_eq!(count_files(&entries), 2);
}

#[test]
fn collect_fails_on_unrelated_relative_path() {
    let walk = vec![item("/work/app", EntryKind::Directory), item("src/main.rs", EntryKind::File)];
    let err = collect_entries("/work/app", &walk).unwrap_err();
    assert_eq!(err.path, "src/main.rs");
}

#[test]
fn classify_item_cases() {
    assert!(matches!(classify_item(None, EntryKind::File), ItemOutcome::Unresolved));
    assert!(matches!(classify_item(Some(String::new()), EntryKind::Directory), ItemOutcome::Skipped));
    assert!(matches!(classify_item(Some("a".to_string()), EntryKind::Other), ItemOutcome::Skipped));
    match classify_item(Some("a/b".to_string()), EntryKind::File) {
        ItemOutcome::Entry(e) => {
            assert_eq!(e.relative_path(), "a/b");
            assert_eq!(e.kind(), EntryKind::File);
        }
        _ => panic!("expected an entry"),
    }
}

#[test]
fn collection_is_the_same_set_in_any_walk_order() {
    let walk = project_walk(5);
    let mut reversed = walk.clone();
    reversed.reverse();
    let mut a: Vec<(String, bool)> =
        collect_entries("/work/app", &walk).unwrap().iter().map(|e| (e.relative_path().clone(), e.is_dir())).collect();
    let mut b: Vec<(String, bool)> =
        collect_entries("/work/app", &reversed).unwrap().iter().map(|e| (e.relative_path().clone(), e.is_dir())).collect();
    a.sort();
    b.sort();
    assert_eq!(a, b);
    assert_eq!(a.len(), 6);
}

#[test]
fn quota_exceeded_reports_exact_overage() {
    let entries = collect_entries("/work/app", &project_walk(10_000)).unwrap();
    match quota_gate(entries, Some(DeployPermissions { max_file_count: 500 })) {
        GateOutcome::Exceeded(q) => {
            assert_eq!(q.observed, 10_000);
            assert_eq!(q.limit, 500);
            assert_eq!(q.overage, 9_500);
        }
        _ => panic!("expected the quota to be exceeded"),
    }
}

#[test]
fn quota_over_by_one_is_refused() {
    let entries = collect_entries("/work/app", &project_walk(3)).unwrap();
    match quota_gate(entries, Some(DeployPermissions { max_file_count: 2 })) {
        GateOutcome::Exceeded(q) => assert_eq!(q.overage, 1),
        _ => panic!("expected the quota to be exceeded"),
    }
}

#[test]
fn quota_at_limit_is_cleared() {
    let entries = collect_entries("/work/app", &project_walk(3)).unwrap();
    let c = cleared(entries, 3);
    assert_eq!(c.file_count(), 3);
    assert_eq!(c.limit(), 3);
    assert!(!c.needs_confirmation());
}

#[test]
fn quota_without_policy_is_a_hard_stop() {
    let entries = collect_entries("/work/app", &project_walk(1)).unwrap();
    assert!(matches!(quota_gate(entries, None), GateOutcome::PolicyUnavailable));
}

#[test]
fn large_project_needs_confirmation() {
    let entries = collect_entries("/work/app", &project_walk(5001)).unwrap();
    assert!(cleared(entries, 10_000).needs_confirmation());
    let entries = collect_entries("/work/app", &project_walk(5000)).unwrap();
    assert!(!cleared(entries, 10_000).needs_confirmation());
}

#[test]
fn small_project_is_archived_and_upload_accepted() {
    let entries = collect_entries("/work/app", &project_walk(10)).unwrap();
    let mut job = ArchiveJob::new(cleared(entries, 50));
    assert_eq!(job.total_files(), 10);
    build(&mut job, &|p: &str| format!("contents of {}", p).into_bytes());
    assert_eq!(job.files_done(), 10);
    let bytes = job.finish().unwrap();
    assert_eq!(extract(&bytes).len(), 11);
    assert!(upload_outcome(201, None).is_ok());
}

#[test]
fn archive_round_trip_keeps_paths_and_contents() {
    let walk = vec![
        item("/work/app", EntryKind::Directory),
        item("/work/app/a.txt", EntryKind::File),
        item("/work/app/sub", EntryKind::Directory),
        item("/work/app/sub/b.bin", EntryKind::File),
        item("/work/app/sub/empty", EntryKind::File),
        item("/work/app/.hidden", EntryKind::File),
    ];
    let entries = collect_entries("/work/app", &walk).unwrap();
    let mut job = ArchiveJob::new(cleared(entries, 10));
    let content = |p: &str| -> Vec<u8> {
        match p {
            "a.txt" => b"hello".to_vec(),
            "sub/b.bin" => vec![0u8, 1, 2, 255, 7],
            "sub/empty" => Vec::new(),
            _ => b"secret=1\n".to_vec(),
        }
    };
    build(&mut job, &content);
    let records = extract(&job.finish().unwrap());
    let paths: Vec<&str> = records.iter().map(|r| r.0.as_str()).collect();
    assert_eq!(paths, vec!["a.txt", "sub", "sub/b.bin", "sub/empty", ".hidden"]);
    for (path, is_dir, size, data, mode) in &records {
        if *is_dir {
            assert_eq!(*size, 0);
            assert!(data.is_empty());
            assert_eq!(*mode, 0o755);
        } else {
            assert_eq!(*size as usize, data.len());
            assert_eq!(data, &content(path));
            assert_eq!(*mode, 0o644);
        }
    }
}

#[test]
fn archive_refuses_out_of_order_and_incomplete_builds() {
    let entries = collect_entries("/work/app", &project_walk(1)).unwrap();
    let mut job = ArchiveJob::new(cleared(entries, 1));
    assert_eq!(job.add_file(b"x".to_vec()), Err(ArchiveBuildError::OutOfOrder));
    assert_eq!(job.add_directory(), Ok(()));
    assert_eq!(job.add_directory(), Err(ArchiveBuildError::OutOfOrder));
    assert_eq!(job.files_done(), 0);
    assert_eq!(job.finish(), Err(ArchiveBuildError::Incomplete));
}

#[test]
fn empty_project_archive_is_a_valid_empty_tarball() {
    let entries = collect_entries("/work/app", &vec![item("/work/app", EntryKind::Directory)]).unwrap();
    assert!(entries.is_empty());
    let mut job = ArchiveJob::new(cleared(entries, 0));
    assert!(matches!(job.next_step(), ArchiveStep::Finish));
    let bytes = job.finish().unwrap();
    assert!(extract(&bytes).is_empty());
}

#[test]
fn archive_file_name_from_leaf() {
    assert_eq!(archive_file_name(Some("shop")), "shop.tar.gz");
    assert_eq!(archive_file_name(None), "project.tar.gz");
}

#[test]
fn archive_write_fails_on_path_tar_refuses() {
    let walk = vec![item("/work/app", EntryKind::Directory), item("/work/other/x.txt", EntryKind::File)];
    let entries = collect_entries("/work/app", &walk).unwrap();
    assert_eq!(entries[0].relative_path(), "../other/x.txt");
    let mut job = ArchiveJob::new(cleared(entries, 1));
    assert_eq!(job.add_file(b"x".to_vec()), Err(ArchiveBuildError::Write));
    assert_eq!(job.add_file(b"x".to_vec()), Err(ArchiveBuildError::Abandoned));
    assert_eq!(job.finish(), Err(ArchiveBuildError::Abandoned));
}
