use std::sync::mpsc;
use fat_folder_discovery::disk_scanner::DiskScanner;
use fat_folder_discovery::path_filter::should_skip;

#[test]
fn recycle_bin_is_skipped_in_any_case() {
    assert!(should_skip("C:\\$Recycle.Bin\\S-1-5-21\\file.tmp"));
    assert!(should_skip("/mnt/c/$RECYCLE.BIN/some/file"));
    assert!(should_skip("d:\\$recycle.bin"));
}

#[test]
fn recycle_bin_descendants_are_skipped() {
    assert!(should_skip("C:\\$recycle.bin\\sub\\deeper\\video.mp4"));
    assert!(should_skip("C:\\outer\\$ReCyClE.bIn\\inner\\a\\b\\c"));
}

#[test]
fn known_system_locations_are_skipped() {
    assert!(should_skip("C:\\System Volume Information\\tracking.log"));
    assert!(should_skip("c:\\windows\\system32\\drivers\\etc\\hosts"));
    assert!(should_skip("C:\\Windows\\WinSxS\\Backup"));
    assert!(should_skip("C:\\WINDOWS\\TEMP\\cab_1234"));
    assert!(should_skip("C:\\ProgramData\\Microsoft\\Windows\\WER\\ReportQueue"));
    assert!(should_skip("C:\\ProgramData\\Microsoft\\Windows\\Caches\\cache.dat"));
    assert!(should_skip("C:\\Users\\Default\\AppData\\Local\\Temp\\x"));
    assert!(should_skip("C:\\Users\\Default\\AppData\\Local\\Microsoft\\Windows\\INetCache\\y"));
}

#[test]
fn ordinary_paths_are_not_skipped() {
    assert!(!should_skip("C:\\Users\\me\\Documents\\report.docx"));
    assert!(!should_skip("/home/user/projects/code.rs"));
    assert!(!should_skip("C:\\recycle.bin\\no-dollar-sign"));
    assert!(!should_skip("C:\\windows\\Fonts\\arial.ttf"));
    assert!(!should_skip(""));
}

#[test]
fn scanner_method_agrees_with_filter() {
    let (tx, _rx) = mpsc::channel();
    let scanner = DiskScanner::new_with_sender("/does/not/matter".to_string(), 5, 5, tx);
    assert!(scanner.should_skip_path("E:\\backup\\$Recycle.Bin\\old"));
    assert!(!scanner.should_skip_path("E:\\backup\\photos"));
}
