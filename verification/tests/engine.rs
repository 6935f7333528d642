use vmtouch::aggregate::{aggregate, TaskOutcome};
use vmtouch::error::VmError;
use vmtouch::fincore::{cached_percent, fincore, should_map};
use vmtouch::helper::{aligned_p, bytes2pages, page_offset, page_size};
use vmtouch::residency::{count_resident_pages, mark_all_resident, resident_pages};
use vmtouch::toucher::{Args, EvictMechanism, VmToucher};

const PS: usize = 4096;

#[test]
fn pages_exact_multiple() {
    assert_eq!(bytes2pages(0, PS), 0);
    assert_eq!(bytes2pages(PS, PS), 1);
    assert_eq!(bytes2pages(3 * PS, PS), 3);
    assert_eq!(bytes2pages(100 * PS, PS), 100);
}

#[test]
fn pages_partial_extra_page() {
    assert_eq!(bytes2pages(1, PS), 1);
    assert_eq!(bytes2pages(PS + 1, PS), 2);
    assert_eq!(bytes2pages(2 * PS - 1, PS), 2);
    assert_eq!(bytes2pages(2 * PS + 7, PS), 3);
}

#[test]
fn percent_bounds_and_endpoints() {
    assert_eq!(cached_percent(0, 0), 0);
    assert_eq!(cached_percent(0, 7), 0);
    assert_eq!(cached_percent(7, 7), 100);
    assert_eq!(cached_percent(1, 3), 33);
    for in_core in 0..=13 {
        let p = cached_percent(in_core, 13);
        assert!(0 <= p && p <= 100);
    }
}

#[test]
fn alignment_check() {
    assert!(aligned_p(0, PS));
    assert!(aligned_p(8 * PS, PS));
    assert!(!aligned_p(PS + 1, PS));
}

#[test]
fn page_index_to_byte_offset() {
    assert_eq!(page_offset(0, PS), 0);
    assert_eq!(page_offset(3, PS), 3 * PS);
}

#[test]
fn system_page_size_query() {
    let ps = page_size().expect("the page-size query must succeed here");
    assert!(ps >= 1);
    assert_eq!(bytes2pages(ps, ps), 1);
}

#[test]
fn residency_counting_uses_bit_zero_only() {
    let bitmap = vec![1u8, 0, 3, 0b1111_1110, 255];
    assert_eq!(count_resident_pages(&bitmap), 3);
    assert_eq!(resident_pages(&bitmap), vec![0, 2, 4]);
}

#[test]
fn touch_marks_every_page_resident() {
    let mut bitmap = vec![0u8, 1, 0];
    assert_eq!(count_resident_pages(&bitmap), 1);
    mark_all_resident(&mut bitmap);
    assert_eq!(bitmap, vec![1u8, 1, 1]);
    assert_eq!(count_resident_pages(&bitmap), 3);
}

#[test]
fn touch_on_fully_resident_bitmap_changes_nothing_reported() {
    let mut bitmap = vec![1u8; 4];
    let before = resident_pages(&bitmap);
    mark_all_resident(&mut bitmap);
    assert_eq!(resident_pages(&bitmap), before);
    assert_eq!(count_resident_pages(&bitmap), 4);
}

#[test]
fn toucher_run_accounting() {
    let args = Args { o_touch: true, o_max_file_size: u32::MAX, ..Default::default() };
    let mut t = VmToucher::new(args, PS);
    let len_file: i64 = 3 * PS as i64;
    let range = t.resolve_range(len_file).expect("a plain file resolves");
    assert_eq!(range, len_file);
    let num_page = t.register_region(range);
    assert_eq!(num_page, 3);
    let mut bitmap = vec![0u8, 1, 0];
    assert_eq!(t.record_residency(&bitmap), 1);
    assert_eq!(t.total_pages, 3);
    assert_eq!(t.total_pages_in_core, 1);
    mark_all_resident(&mut bitmap);
    assert_eq!(count_resident_pages(&bitmap), 3);
    let totals = t.run_totals();
    assert_eq!(totals.total_pages, 3);
    assert_eq!(totals.pages_in_core, 1);
    assert_eq!(totals.total_size, 3 * PS as i64);
    assert_eq!(totals.size_in_core, PS as i64);
    assert_eq!(totals.percent_in_core, 33);
}

#[test]
fn resolve_range_window_and_limits() {
    let args = Args { o_max_file_size: 10_000, ..Default::default() };
    let mut t = VmToucher::new(args, PS);
    assert_eq!(t.resolve_range(10_001), Err(VmError::ExceedsSizeLimit));
    assert_eq!(t.resolve_range(10_000), Ok(10_000));
    t.max_len = 512;
    assert_eq!(t.resolve_range(10_000), Ok(512));
    t.offset = 9_488;
    assert_eq!(t.resolve_range(10_000), Ok(512));
    t.max_len = 0;
    t.offset = 10_000;
    assert_eq!(t.resolve_range(10_000), Err(VmError::OffsetBeyondEnd));
}

#[test]
fn offset_at_end_contributes_nothing() {
    let args = Args { o_max_file_size: u32::MAX, ..Default::default() };
    let t = VmToucher::new(args, PS);
    let mut t2 = t;
    t2.offset = 100;
    assert_eq!(t2.resolve_range(100), Err(VmError::OffsetBeyondEnd));
    assert_eq!(t2.total_pages, 0);
    assert_eq!(t2.total_pages_in_core, 0);
    let totals = t2.run_totals();
    assert_eq!(totals.total_pages, 0);
    assert_eq!(totals.percent_in_core, 0);
}

#[test]
fn misaligned_mapping_is_an_internal_error() {
    let args = Args { o_max_file_size: u32::MAX, ..Default::default() };
    let t = VmToucher::new(args, PS);
    assert_eq!(t.check_alignment(PS * 7), Ok(()));
    assert_eq!(
        t.check_alignment(PS * 7 + 1),
        Err(VmError::AlignmentInvariantViolated)
    );
}

#[test]
fn evict_unsupported_platform_fails_gracefully() {
    let args = Args { o_evict: true, o_max_file_size: u32::MAX, ..Default::default() };
    let t = VmToucher::new(args, PS);
    let r = t.evict_mem(EvictMechanism::Unsupported, -1, PS as i64);
    assert_eq!(r, Err(VmError::UnsupportedOnPlatform));
    assert_eq!(t.total_pages, 0);
    assert_eq!(t.total_pages_in_core, 0);
}

#[test]
fn evict_advisory_on_bad_descriptor_fails() {
    let args = Args { o_evict: true, o_max_file_size: u32::MAX, ..Default::default() };
    let t = VmToucher::new(args, PS);
    let r = t.evict_mem(EvictMechanism::AdvisoryDontNeed, -1, PS as i64);
    assert_eq!(r, Err(VmError::EvictFailed));
}

#[test]
fn fincore_record_fields() {
    let bitmap = vec![1u8, 0, 5];
    let r = fincore("data.bin", true, 2 * PS + 100, PS, &bitmap);
    assert_eq!(r.path, "data.bin");
    assert_eq!(r.file_size, (2 * PS + 100) as i64);
    assert_eq!(r.total_pages, 3);
    assert_eq!(r.cached, 2);
    assert_eq!(r.cached_size, 2 * PS as i64);
    assert_eq!(r.cached_percent, 66);
    assert_eq!(r.cached_pages, vec![0, 2]);
    let r2 = fincore("data.bin", false, 2 * PS + 100, PS, &bitmap);
    assert!(r2.cached_pages.is_empty());
}

#[test]
fn zero_length_file_has_no_pages_and_no_mapping() {
    assert!(!should_map(0));
    assert!(should_map(1));
    let bitmap: Vec<u8> = vec![];
    let r = fincore("empty", true, 0, PS, &bitmap);
    assert_eq!(r.total_pages, 0);
    assert_eq!(r.cached, 0);
    assert_eq!(r.cached_percent, 0);
    assert!(r.cached_pages.is_empty());
}

#[test]
fn aggregate_orders_filters_and_sums() {
    let b1 = vec![1u8, 1, 0];
    let r1 = fincore("one", false, 2 * PS + 10, PS, &b1);
    let b2 = vec![0u8];
    let r2 = fincore("two", false, 5, PS, &b2);
    let outcomes = vec![
        TaskOutcome::Done(r1),
        TaskOutcome::Failed(VmError::OffsetBeyondEnd),
        TaskOutcome::Done(r2),
    ];
    let (reported, totals) = aggregate(outcomes, false);
    assert_eq!(reported.len(), 2);
    assert_eq!(reported[0].path, "one");
    assert_eq!(reported[1].path, "two");
    assert_eq!(totals.total_pages, 4);
    assert_eq!(totals.pages_in_core, 2);
    assert_eq!(totals.total_size, (2 * PS + 10 + 5) as i64);
    assert_eq!(totals.size_in_core, 2 * PS as i64);
    assert_eq!(totals.percent_in_core, 50);
}

#[test]
fn aggregate_only_cached_narrows_report_not_totals() {
    let b1 = vec![1u8, 1, 0];
    let r1 = fincore("one", false, 2 * PS + 10, PS, &b1);
    let b2 = vec![0u8];
    let r2 = fincore("two", false, 5, PS, &b2);
    let outcomes = vec![TaskOutcome::Done(r1), TaskOutcome::Done(r2)];
    let (reported, totals) = aggregate(outcomes, true);
    assert_eq!(reported.len(), 1);
    assert_eq!(reported[0].path, "one");
    assert_eq!(totals.total_pages, 4);
    assert_eq!(totals.pages_in_core, 2);
}

#[test]
fn error_descriptions() {
    assert_eq!(
        VmError::UnsupportedOnPlatform.describe(),
        "cache eviction not supported on this platform"
    );
    assert_eq!(
        VmError::OffsetBeyondEnd.describe(),
        "file smaller than offset, skipping"
    );
    assert_eq!(VmError::ExceedsSizeLimit.describe(), "file length beyond max file size");
}
