use jvmti_bindings::advanced::heap_graph::{HeapGraph, Tagger};
use jvmti_bindings::classfile::scan::{is_class_entry, ScanTotals};
use jvmti_bindings::jvmti_wrapper::ptr_in_range;

#[test]
fn tagger_tags_only_untagged_objects() {
    let mut t = Tagger::new(100);
    assert!(t.can_tag());
    assert_eq!(t.visit(0), 100);
    assert_eq!(t.visit(7), 7);
    assert_eq!(t.visit(0), 101);
    assert_eq!(t.visit(-1), -1);
    let r = t.range(100);
    assert_eq!((r.start, r.end, r.tagged), (100, 102, 2));
}

#[test]
fn tagger_that_saw_nothing_has_an_empty_range() {
    let t = Tagger::new(5);
    let r = t.range(5);
    assert_eq!((r.start, r.end, r.tagged), (5, 5, 0));
}

#[test]
fn tagger_at_the_last_tag_has_no_room() {
    let t = Tagger::new(i64::MAX);
    assert!(!t.can_tag());
    let mut t = Tagger::new(i64::MAX - 1);
    assert!(t.can_tag());
    assert_eq!(t.visit(0), i64::MAX - 1);
    assert!(!t.can_tag());
}

#[test]
fn edges_need_two_tagged_ends() {
    let mut g = HeapGraph::new();
    g.record_edge(1, 2);
    g.record_edge(0, 2);
    g.record_edge(1, 0);
    g.record_edge(0, 0);
    g.record_edge(-3, 4);
    g.record_edge(1, 2);
    assert_eq!(g.edges, vec![(1, 2), (-3, 4), (1, 2)]);
}

#[test]
fn address_ranges() {
    assert!(ptr_in_range(100, 100, 1));
    assert!(!ptr_in_range(101, 100, 1));
    assert!(ptr_in_range(107, 100, 8));
    assert!(!ptr_in_range(108, 100, 8));
    assert!(!ptr_in_range(99, 100, 8));
    assert!(!ptr_in_range(0, 100, 8));
    assert!(!ptr_in_range(100, 0, 8));
    assert!(!ptr_in_range(100, 100, 0));
    assert!(ptr_in_range(usize::MAX, usize::MAX - 1, 2));
    assert!(ptr_in_range(usize::MAX, 1, usize::MAX));
    assert!(!ptr_in_range(1, usize::MAX, usize::MAX));
}

#[test]
fn class_entries_end_in_dot_class() {
    assert!(is_class_entry("A.class"));
    assert!(is_class_entry("java/lang/Object.class"));
    assert!(is_class_entry(".class"));
    assert!(is_class_entry("\u{e9}t\u{e9}.class"));
    assert!(!is_class_entry("class"));
    assert!(!is_class_entry("A.CLASS"));
    assert!(!is_class_entry("A.class/"));
    assert!(!is_class_entry("A.clas"));
    assert!(!is_class_entry("META-INF/INDEX.LIST"));
    assert!(!is_class_entry(""));
}

#[test]
fn totals_count_decoded_and_failed_files() {
    let mut good = vec![0xCA, 0xFE, 0xBA, 0xBE, 0, 0, 0, 52, 0, 1];
    good.extend_from_slice(&[0; 14]);
    let bad = [0xCAu8, 0xFE, 0xBA];
    let mut t = ScanTotals::new();
    assert_eq!((t.class_files, t.parsed, t.failed, t.total_bytes), (0, 0, 0, 0));
    assert!(t.can_record(good.len()));
    t.record(&good);
    assert_eq!((t.class_files, t.parsed, t.failed, t.total_bytes), (1, 1, 0, 24));
    t.record(&bad);
    assert_eq!((t.class_files, t.parsed, t.failed, t.total_bytes), (2, 1, 1, 27));
    t.record(&[]);
    assert_eq!((t.class_files, t.parsed, t.failed, t.total_bytes), (3, 1, 2, 27));
}

#[test]
fn full_totals_have_no_room() {
    let mut t = ScanTotals::new();
    t.total_bytes = u64::MAX - 3;
    assert!(t.can_record(3));
    assert!(!t.can_record(4));
    t.total_bytes = 0;
    t.failed = u64::MAX;
    assert!(!t.can_record(0));
}
