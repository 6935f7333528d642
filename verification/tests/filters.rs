use vmtouch::fnmatch::{file_name_of, is_ignored};
use vmtouch::search::InodeDeduplicator;

#[test]
fn ignore_pattern_matches_filename_only() {
    let rules = vec!["*.tmp".to_string()];
    assert!(is_ignored("foo.tmp", &rules));
    assert!(!is_ignored("foo.tmpx", &rules));
    assert!(is_ignored("/dir/foo.tmp", &rules));
    assert!(!is_ignored("/foo.tmp/bar", &rules));
}

#[test]
fn empty_rule_set_ignores_nothing() {
    let rules: Vec<String> = vec![];
    assert!(!is_ignored("anything", &rules));
}

#[test]
fn any_matching_rule_excludes_the_entry() {
    let rules = vec!["*.log".to_string(), "*.tmp".to_string()];
    assert!(is_ignored("a.tmp", &rules));
    assert!(is_ignored("b.log", &rules));
    assert!(!is_ignored("c.txt", &rules));
}

#[test]
fn invalid_pattern_matches_nothing() {
    let rules = vec!["[".to_string()];
    assert!(!is_ignored("[", &rules));
}

#[test]
fn filename_extraction() {
    assert_eq!(file_name_of("/a/b/c.txt"), "c.txt");
    assert_eq!(file_name_of("plain"), "plain");
    assert_eq!(file_name_of("dir/"), "");
}

#[test]
fn dedup_second_record_refused() {
    let mut d = InodeDeduplicator::new();
    assert!(!d.seen(2049, 1234));
    assert!(d.record(2049, 1234));
    assert!(d.seen(2049, 1234));
    assert!(!d.record(2049, 1234));
    assert!(d.seen(2049, 1234));
    assert!(d.record(2049, 1235));
    assert!(d.record(2050, 1234));
}
