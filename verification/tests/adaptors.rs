use fallible_streaming_iterator::FallibleStreamingIterator;
use fallible_streaming_iterator::apply::{BelowBound, IsEven, PairFirst, TallyDouble};
use fallible_streaming_iterator::source::{SourceError, VecSource};

fn drain_u32<I>(it: &mut I) -> Vec<u32>
where
    I: FallibleStreamingIterator<Item = u32, Error = SourceError>,
{
    let mut out = Vec::new();
    while let Some(v) = it.next().expect("iteration failed") {
        out.push(*v);
    }
    out
}

fn drain_u64<I>(it: &mut I) -> Vec<u64>
where
    I: FallibleStreamingIterator<Item = u64, Error = SourceError>,
{
    let mut out = Vec::new();
    while let Some(v) = it.next().expect("iteration failed") {
        out.push(*v);
    }
    out
}

#[test]
fn filter_keeps_even_elements_in_order() {
    let mut it = VecSource::new(vec![1u32, 2, 3, 4, 5, 6]).filter(IsEven);
    assert_eq!(drain_u32(&mut it), vec![2, 4, 6]);
}

#[test]
fn filter_with_no_survivors_is_empty_not_an_error() {
    let mut it = VecSource::new(vec![1u32, 3, 5]).filter(IsEven);
    assert!(matches!(it.next(), Ok(None)));
    assert!(matches!(it.next(), Ok(None)));
}

#[test]
fn filter_propagates_the_source_error() {
    let mut it = VecSource::with_fault(vec![2u32, 3, 9], 2).filter(IsEven);
    assert!(matches!(it.next(), Ok(Some(&2))));
    assert!(matches!(it.next(), Err(SourceError)));
}

#[test]
fn map_doubles_each_element() {
    let mut it = VecSource::new(vec![1u32, 2, 3]).map(TallyDouble { calls: 0 });
    assert_eq!(drain_u64(&mut it), vec![2, 4, 6]);
}

#[test]
fn map_invokes_the_transform_once_per_element() {
    let mut it = VecSource::new(vec![1u32, 2, 3]).map(TallyDouble { calls: 0 });
    assert_eq!(drain_u64(&mut it), vec![2, 4, 6]);
    assert_eq!(it.f.calls, 3);
    assert!(matches!(it.next(), Ok(None)));
    assert_eq!(it.f.calls, 3);
}

#[test]
fn map_ref_projects_without_buffering() {
    let mut it = VecSource::new(vec![(1u32, 10u32), (2, 20)]).map_ref(PairFirst);
    assert_eq!(drain_u32(&mut it), vec![1, 2]);
}

#[test]
fn fuse_reports_exhaustion_without_redriving_the_source() {
    // The raw source yields two elements, reports exhaustion once, and would
    // error if pulled a fourth time.
    let mut it = VecSource::with_fault(vec![1u32, 2], 2).fuse();
    assert!(matches!(it.next(), Ok(Some(&1))));
    assert!(matches!(it.next(), Ok(Some(&2))));
    assert!(matches!(it.next(), Ok(None)));
    assert!(matches!(it.next(), Ok(None)));
    assert!(matches!(it.next(), Ok(None)));
}

#[test]
fn unfused_source_errors_when_pulled_past_exhaustion() {
    let mut it = VecSource::with_fault(vec![1u32, 2], 2);
    assert!(matches!(it.next(), Ok(Some(&1))));
    assert!(matches!(it.next(), Ok(Some(&2))));
    assert!(matches!(it.next(), Ok(None)));
    assert!(matches!(it.next(), Err(SourceError)));
}

#[test]
fn fuse_makes_an_error_terminal() {
    let mut it = VecSource::with_fault(vec![1u32, 9], 1).fuse();
    assert!(matches!(it.next(), Ok(Some(&1))));
    assert!(matches!(it.next(), Err(SourceError)));
    assert!(matches!(it.next(), Ok(None)));
    assert!(matches!(it.next(), Ok(None)));
}

#[test]
fn skip_discards_the_lead() {
    let mut it = VecSource::new(vec![1u32, 2, 3]).skip(2);
    assert_eq!(drain_u32(&mut it), vec![3]);
}

#[test]
fn skip_past_the_end_is_empty_without_error() {
    let mut it = VecSource::new(vec![1u32, 2, 3]).skip(5);
    assert!(matches!(it.next(), Ok(None)));
}

#[test]
fn skip_while_discards_the_matching_lead_only() {
    let mut it = VecSource::new(vec![1u32, 2, 3, 4, 1]).skip_while(BelowBound { bound: 3 });
    assert_eq!(drain_u32(&mut it), vec![3, 4, 1]);
}

#[test]
fn skip_while_of_an_all_matching_source_is_empty() {
    let mut it = VecSource::new(vec![1u32, 2]).skip_while(BelowBound { bound: 9 });
    assert!(matches!(it.next(), Ok(None)));
}

#[test]
fn take_zero_shows_nothing_and_leaves_the_source_alone() {
    let mut it = VecSource::new(vec![1u32, 2, 3]).take(0);
    assert!(matches!(it.next(), Ok(None)));
    // The source was never advanced: its full count is still pending.
    assert_eq!(it.it.size_hint(), (3, Some(3)));
}

#[test]
fn take_while_yields_the_matching_lead_and_stops() {
    let mut it = VecSource::new(vec![1u32, 2, 3, 4]).take_while(BelowBound { bound: 3 });
    assert_eq!(drain_u32(&mut it), vec![1, 2]);
    assert_eq!(it.size_hint(), (0, Some(0)));
}

#[test]
fn take_while_of_an_all_matching_source_ends_cleanly() {
    let mut it = VecSource::new(vec![1u32, 2]).take_while(BelowBound { bound: 9 });
    assert_eq!(drain_u32(&mut it), vec![1, 2]);
}

#[test]
fn filter_hint_has_lower_bound_zero() {
    let it = VecSource::new(vec![1u32, 2, 3, 4, 5, 6]).filter(IsEven);
    assert_eq!(it.size_hint(), (0, Some(6)));
}

#[test]
fn skip_hint_subtracts_the_skipped_count() {
    let it = VecSource::new(vec![1u32, 2, 3]).skip(2);
    assert_eq!(it.size_hint(), (1, Some(1)));
    let far = VecSource::new(vec![1u32, 2, 3]).skip(5);
    assert_eq!(far.size_hint(), (0, Some(0)));
}

#[test]
fn take_hint_subtracts_the_count_while_running() {
    let it = VecSource::new(vec![1u32, 2, 3]).take(2);
    assert_eq!(it.size_hint(), (1, Some(1)));
}

#[test]
fn fuse_hint_passes_through() {
    let it = VecSource::new(vec![1u32, 2]).fuse();
    assert_eq!(it.size_hint(), (2, Some(2)));
}

#[test]
fn take_propagates_an_error_met_while_counting_down() {
    let mut it = VecSource::with_fault(vec![9u32], 0).take(2);
    assert!(matches!(it.next(), Err(SourceError)));
}

#[test]
fn skip_propagates_an_error_met_while_skipping() {
    let mut it = VecSource::with_fault(vec![1u32, 9], 1).skip(3);
    assert!(matches!(it.next(), Err(SourceError)));
}

#[test]
fn skip_while_propagates_an_error_met_in_the_lead() {
    let mut it = VecSource::with_fault(vec![1u32, 9], 1).skip_while(BelowBound { bound: 5 });
    assert!(matches!(it.next(), Err(SourceError)));
}

#[test]
fn take_while_propagates_an_error_met_in_the_run() {
    let mut it = VecSource::with_fault(vec![1u32, 9], 1).take_while(BelowBound { bound: 5 });
    assert!(matches!(it.next(), Ok(Some(&1))));
    assert!(matches!(it.next(), Err(SourceError)));
}

#[test]
fn map_ref_get_is_idempotent() {
    let mut it = VecSource::new(vec![(3u32, 30u32)]).map_ref(PairFirst);
    assert!(matches!(it.next(), Ok(Some(&3))));
    assert_eq!(it.get(), Some(&3));
    assert_eq!(it.get(), Some(&3));
}

#[test]
fn take_counts_down_and_flips_done_at_zero() {
    let mut it = VecSource::new(vec![1u32, 2, 3]).take(5);
    assert!(matches!(it.next(), Ok(None)));
    assert_eq!(it.n, 4);
    assert!(!it.done);
    for _ in 0..4 {
        assert!(matches!(it.next(), Ok(None)));
    }
    assert_eq!(it.n, 0);
    assert!(matches!(it.next(), Ok(None)));
    assert!(it.done);
}

#[test]
fn take_forwards_the_source_element_once_done() {
    let mut src = VecSource::new(vec![7u32, 8]);
    assert!(matches!(src.next(), Ok(Some(&7))));
    let mut it = src.take(0);
    assert!(matches!(it.next(), Ok(Some(&7))));
    assert_eq!(it.get(), Some(&7));
}
