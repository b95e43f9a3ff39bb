use std::io::Write;
use std::sync::mpsc;
use fat_folder_discovery::disk_scanner::DiskScanner;
use fat_folder_discovery::disk_scanner::ScanResult;
use fat_folder_discovery::disk_scanner::ScanResults;
use tempfile::Builder;
use tempfile::TempDir;
use tempfile::TempPath;

fn make_file(dir: &std::path::Path, size: usize) -> TempPath {
    let mut f = Builder::new().prefix("data").tempfile_in(dir).unwrap();
    f.write_all(&vec![7u8; size]).unwrap();
    f.flush().unwrap();
    f.into_temp_path()
}

fn make_dir(dir: &std::path::Path, prefix: &str) -> TempDir {
    Builder::new().prefix(prefix).tempdir_in(dir).unwrap()
}

fn sizes(v: &[ScanResult]) -> Vec<u64> {
    v.iter().map(|e| e.size).collect()
}

fn assert_sorted_and_bounded(snap: &ScanResults, folder_limit: usize, file_limit: usize) {
    assert!(snap.folders.len() <= folder_limit);
    assert!(snap.files.len() <= file_limit);
    for w in snap.folders.windows(2) {
        assert!(w[0].size >= w[1].size);
    }
    for w in snap.files.windows(2) {
        assert!(w[0].size >= w[1].size);
    }
}

#[test]
fn scan_ranks_folders_by_aggregate_size() {
    let root = TempDir::new().unwrap();
    let dir_a = make_dir(root.path(), "alpha");
    let dir_b = make_dir(root.path(), "bravo");
    let dir_c = make_dir(root.path(), "charlie");
    let _fa = make_file(dir_a.path(), 100);
    let _fb = make_file(dir_b.path(), 300);
    let _fc = make_file(dir_c.path(), 50);

    let (tx, _rx) = mpsc::channel();
    let scanner = DiskScanner::new_with_sender(
        root.path().to_string_lossy().to_string(),
        10,
        2,
        tx,
    );
    let results = scanner.scan();
    assert_eq!(sizes(&results.folders), vec![300, 100]);
}

#[test]
fn scan_ranks_files_by_size() {
    let root = TempDir::new().unwrap();
    let _files: Vec<TempPath> =
        [5usize, 1, 9, 3].iter().map(|s| make_file(root.path(), *s)).collect();

    let (tx, _rx) = mpsc::channel();
    let scanner = DiskScanner::new_with_sender(
        root.path().to_string_lossy().to_string(),
        2,
        10,
        tx,
    );
    let results = scanner.scan();
    assert_eq!(sizes(&results.files), vec![9, 5]);
    assert!(results.folders.is_empty());
}

#[test]
fn filtered_subtree_influences_nothing() {
    let root = TempDir::new().unwrap();
    let excluded = make_dir(root.path(), "$recycle.bin");
    let _big = make_file(excluded.path(), 100000);
    let dir_a = make_dir(root.path(), "alpha");
    let dir_b = make_dir(root.path(), "bravo");
    let _fa = make_file(dir_a.path(), 300);
    let _fb = make_file(dir_b.path(), 100);

    let (tx, _rx) = mpsc::channel();
    let scanner = DiskScanner::new_with_sender(
        root.path().to_string_lossy().to_string(),
        10,
        10,
        tx,
    );
    let results = scanner.scan();
    for entry in results.folders.iter().chain(results.files.iter()) {
        assert!(!entry.path.to_lowercase().contains("$recycle.bin"));
        assert!(entry.size != 100000);
    }
    assert_eq!(sizes(&results.folders), vec![300, 100]);
    assert_eq!(sizes(&results.files), vec![300, 100]);
}

#[test]
fn stop_before_scan_yields_empty_final_snapshot() {
    let root = TempDir::new().unwrap();
    let _f = make_file(root.path(), 42);

    let (tx, rx) = mpsc::channel();
    let scanner = DiskScanner::new_with_sender(
        root.path().to_string_lossy().to_string(),
        5,
        5,
        tx,
    );
    scanner.stop();
    let results = scanner.scan();
    assert!(results.folders.is_empty());
    assert!(results.files.is_empty());

    // The final snapshot is still published after cancellation.
    let last = rx.try_recv().unwrap();
    assert!(last.folders.is_empty());
    assert!(last.files.is_empty());
    assert!(rx.try_recv().is_err());
}

#[test]
fn cancel_handle_stops_a_scan() {
    let root = TempDir::new().unwrap();
    let _f = make_file(root.path(), 42);

    let (tx, _rx) = mpsc::channel();
    let scanner = DiskScanner::new_with_sender(
        root.path().to_string_lossy().to_string(),
        5,
        5,
        tx,
    );
    let handle = scanner.cancel_handle();
    handle.request_stop();
    let results = scanner.scan();
    assert!(results.folders.is_empty());
    assert!(results.files.is_empty());
}

#[test]
fn every_delivered_snapshot_is_sorted_and_bounded() {
    let root = TempDir::new().unwrap();
    let _files: Vec<TempPath> =
        (0..1100).map(|i| make_file(root.path(), (i % 13) + 1)).collect();

    let (tx, rx) = mpsc::channel();
    let scanner = DiskScanner::new_with_sender(
        root.path().to_string_lossy().to_string(),
        5,
        3,
        tx,
    );
    let results = scanner.scan();
    assert_eq!(results.files.len(), 5);
    assert_eq!(sizes(&results.files), vec![13, 13, 13, 13, 13]);

    let mut count = 0;
    while let Ok(snap) = rx.try_recv() {
        assert_sorted_and_bounded(&snap, 3, 5);
        count += 1;
    }
    // Two periodic snapshots (every 500 files) and the final one.
    assert_eq!(count, 3);
}

#[test]
fn folder_snapshots_are_published_periodically() {
    let root = TempDir::new().unwrap();
    let mut dirs: Vec<TempDir> = Vec::new();
    let mut files: Vec<TempPath> = Vec::new();
    for i in 0..55usize {
        let d = make_dir(root.path(), "node");
        files.push(make_file(d.path(), (i % 5) + 1));
        dirs.push(d);
    }

    let (tx, rx) = mpsc::channel();
    let scanner = DiskScanner::new_with_sender(
        root.path().to_string_lossy().to_string(),
        10,
        4,
        tx,
    );
    let results = scanner.scan();
    assert_eq!(results.folders.len(), 4);

    let mut count: usize = 0;
    while let Ok(snap) = rx.try_recv() {
        assert_sorted_and_bounded(&snap, 4, 10);
        count += 1;
    }
    // One periodic snapshot (at the fiftieth directory) and the final one.
    assert!(count >= 2);
}

#[test]
fn missing_root_gives_empty_results() {
    let (tx, rx) = mpsc::channel();
    let scanner = DiskScanner::new_with_sender(
        "/no/such/path/anywhere-at-all".to_string(),
        4,
        4,
        tx,
    );
    let results = scanner.scan();
    assert!(results.folders.is_empty());
    assert!(results.files.is_empty());
    // Only the final (empty) snapshot was published.
    let last = rx.try_recv().unwrap();
    assert!(last.folders.is_empty());
    assert!(last.files.is_empty());
    assert!(rx.try_recv().is_err());
}
