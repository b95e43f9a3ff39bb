use fat_folder_discovery::disk_scanner::ScanResult;
use fat_folder_discovery::selector::BoundedTopSelector;

fn entry(name: &str, size: u64) -> ScanResult {
    ScanResult { name: name.to_string(), path: format!("/data/{}", name), size }
}

fn sizes(v: &[ScanResult]) -> Vec<u64> {
    v.iter().map(|e| e.size).collect()
}

#[test]
fn retains_all_when_under_capacity() {
    let mut sel = BoundedTopSelector::new(5);
    sel.push(entry("a", 10));
    sel.push(entry("b", 30));
    sel.push(entry("c", 20));
    let snap = sel.snapshot();
    assert_eq!(snap.len(), 3);
    assert_eq!(sizes(&snap), vec![30, 20, 10]);
}

#[test]
fn retains_exactly_capacity_with_largest() {
    let mut sel = BoundedTopSelector::new(2);
    for s in [4u64, 9, 1, 7, 3] {
        sel.push(entry("e", s));
    }
    let snap = sel.snapshot();
    assert_eq!(sizes(&snap), vec![9, 7]);
    let min_retained = snap.iter().map(|e| e.size).min().unwrap();
    for evicted in [4u64, 1, 3] {
        assert!(min_retained >= evicted);
    }
}

#[test]
fn snapshot_is_idempotent() {
    let mut sel = BoundedTopSelector::new(3);
    sel.push(entry("a", 5));
    sel.push(entry("b", 8));
    sel.push(entry("c", 8));
    sel.push(entry("d", 2));
    let first = sel.snapshot();
    let second = sel.snapshot();
    assert_eq!(first.len(), second.len());
    for (x, y) in first.iter().zip(second.iter()) {
        assert_eq!(x.name, y.name);
        assert_eq!(x.path, y.path);
        assert_eq!(x.size, y.size);
    }
}

#[test]
fn snapshot_is_sorted_nonincreasing() {
    let mut sel = BoundedTopSelector::new(8);
    for s in [3u64, 14, 1, 59, 26, 5, 35, 9] {
        sel.push(entry("e", s));
    }
    let snap = sel.snapshot();
    assert_eq!(snap.len(), 8);
    for w in snap.windows(2) {
        assert!(w[0].size >= w[1].size);
    }
}

#[test]
fn folder_example_keeps_two_largest() {
    let mut sel = BoundedTopSelector::new(2);
    sel.push(entry("A", 100));
    sel.push(entry("B", 300));
    sel.push(entry("C", 50));
    let snap = sel.snapshot();
    assert_eq!(sizes(&snap), vec![300, 100]);
    assert_eq!(snap[0].name, "B");
    assert_eq!(snap[1].name, "A");
}

#[test]
fn file_example_keeps_two_largest_in_order() {
    let mut sel = BoundedTopSelector::new(2);
    for s in [5u64, 1, 9, 3] {
        sel.push(entry("f", s));
    }
    assert_eq!(sizes(&sel.snapshot()), vec![9, 5]);
}

#[test]
fn equal_sizes_stay_within_capacity() {
    let mut sel = BoundedTopSelector::new(2);
    sel.push(entry("a", 5));
    sel.push(entry("b", 5));
    sel.push(entry("c", 5));
    let snap = sel.snapshot();
    assert_eq!(sizes(&snap), vec![5, 5]);
}

#[test]
fn single_capacity_keeps_maximum() {
    let mut sel = BoundedTopSelector::new(1);
    for s in [2u64, 11, 7] {
        sel.push(entry("e", s));
    }
    let snap = sel.snapshot();
    assert_eq!(sizes(&snap), vec![11]);
}

#[test]
fn len_tracks_retained_count() {
    let mut sel = BoundedTopSelector::new(3);
    assert_eq!(sel.len(), 0);
    sel.push(entry("a", 1));
    assert_eq!(sel.len(), 1);
    sel.push(entry("b", 2));
    sel.push(entry("c", 3));
    sel.push(entry("d", 4));
    assert_eq!(sel.len(), 3);
}
