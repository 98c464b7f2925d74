use fallible_streaming_iterator::FallibleStreamingIterator;
use fallible_streaming_iterator::apply::{BelowBound, IsEven, TallyDouble};
use fallible_streaming_iterator::source::{SourceError, VecSource};

fn gather_u64<I>(it: &mut I) -> Vec<u64>
where
    I: FallibleStreamingIterator<Item = u64, Error = SourceError>,
{
    let mut out = Vec::new();
    while let Some(v) = it.next().expect("iteration failed") {
        out.push(*v);
    }
    out
}

#[test]
fn source_yields_its_elements_then_stays_exhausted() {
    let mut it = VecSource::new(vec![7u32, 8]);
    assert!(matches!(it.next(), Ok(Some(&7))));
    assert!(matches!(it.next(), Ok(Some(&8))));
    assert!(matches!(it.next(), Ok(None)));
    assert!(matches!(it.next(), Ok(None)));
}

#[test]
fn faulty_source_errors_in_place_of_the_chosen_element() {
    let mut it = VecSource::with_fault(vec![1u32, 2, 9], 2);
    assert!(matches!(it.next(), Ok(Some(&1))));
    assert!(matches!(it.next(), Ok(Some(&2))));
    assert!(matches!(it.next(), Err(SourceError)));
}

#[test]
fn get_before_any_advance_shows_nothing() {
    let src = VecSource::new(vec![1u32, 2]);
    assert!(src.get().is_none());
    let filtered = VecSource::new(vec![1u32, 2]).filter(IsEven);
    assert!(filtered.get().is_none());
    let fused = VecSource::new(vec![1u32, 2]).fuse();
    assert!(fused.get().is_none());
    let cut = VecSource::new(vec![1u32, 2]).take(1);
    assert!(cut.get().is_none());
}

#[test]
fn get_is_idempotent_on_the_current_element() {
    let mut it = VecSource::new(vec![5u32, 6]);
    assert!(matches!(it.next(), Ok(Some(&5))));
    assert_eq!(it.get(), Some(&5));
    assert_eq!(it.get(), Some(&5));
}

#[test]
fn count_counts_the_remaining_elements() {
    let it = VecSource::new(vec![1u32, 2, 3]);
    assert_eq!(it.count(), Ok(3));
}

#[test]
fn count_surfaces_an_error_on_the_third_advance() {
    let it = VecSource::with_fault(vec![1u32, 2, 9], 2);
    assert_eq!(it.count(), Err(SourceError));
}

#[test]
fn all_accepts_when_every_element_passes() {
    let mut it = VecSource::new(vec![2u32, 4, 6]);
    assert_eq!(it.all(&mut IsEven), Ok(true));
}

#[test]
fn all_stops_at_the_first_failing_element() {
    let mut it = VecSource::new(vec![2u32, 3, 4]);
    assert_eq!(it.all(&mut IsEven), Ok(false));
    // The failing element stays current; nothing further was consumed.
    assert_eq!(it.get(), Some(&3));
    assert!(matches!(it.next(), Ok(Some(&4))));
}

#[test]
fn all_surfaces_an_error_on_the_third_advance() {
    let mut it = VecSource::with_fault(vec![2u32, 4, 9], 2);
    assert_eq!(it.all(&mut IsEven), Err(SourceError));
}

#[test]
fn any_finds_a_satisfying_element() {
    let mut it = VecSource::new(vec![1u32, 3, 4]);
    assert_eq!(it.any(&mut IsEven), Ok(true));
}

#[test]
fn any_is_false_at_exhaustion() {
    let mut it = VecSource::new(vec![1u32, 3, 5]);
    assert_eq!(it.any(&mut IsEven), Ok(false));
}

#[test]
fn find_returns_the_first_match_and_keeps_it_current() {
    let mut it = VecSource::new(vec![1u32, 3, 4, 6]);
    assert!(matches!(it.find(&mut IsEven), Ok(Some(&4))));
    assert_eq!(it.get(), Some(&4));
    assert!(matches!(it.next(), Ok(Some(&6))));
}

#[test]
fn find_returns_nothing_when_no_element_matches() {
    let mut it = VecSource::new(vec![1u32, 3]);
    assert!(matches!(it.find(&mut IsEven), Ok(None)));
}

#[test]
fn find_surfaces_an_error_on_the_third_advance() {
    let mut it = VecSource::with_fault(vec![1u32, 3, 9], 2);
    assert!(matches!(it.find(&mut IsEven), Err(SourceError)));
}

#[test]
fn position_returns_the_index_of_the_first_match() {
    let mut it = VecSource::new(vec![1u32, 3, 4]);
    assert_eq!(it.position(&mut IsEven), Ok(Some(2)));
}

#[test]
fn position_returns_nothing_when_no_element_matches() {
    let mut it = VecSource::new(vec![1u32, 3]);
    assert_eq!(it.position(&mut IsEven), Ok(None));
}

#[test]
fn nth_returns_the_indexed_element() {
    let mut it = VecSource::new(vec![5u32, 6, 7]);
    assert!(matches!(it.nth(1), Ok(Some(&6))));
    assert!(matches!(it.next(), Ok(Some(&7))));
}

#[test]
fn nth_past_the_end_is_none() {
    let mut it = VecSource::new(vec![1u32]);
    assert!(matches!(it.nth(5), Ok(None)));
}

#[test]
fn chained_filter_map_matches_the_eager_composition() {
    let mut chain = VecSource::new(vec![1u32, 2, 3, 4, 5, 6]).filter(IsEven).map(TallyDouble {
        calls: 0,
    });
    let lazy = gather_u64(&mut chain);
    let eager: Vec<u64> = vec![1u32, 2, 3, 4, 5, 6]
        .into_iter()
        .filter(|x| x % 2 == 0)
        .map(|x| 2 * x as u64)
        .collect();
    assert_eq!(lazy, eager);
    assert_eq!(lazy, vec![4, 8, 12]);
}

#[test]
fn chained_filter_map_take_zero_matches_the_eager_composition() {
    let mut chain = VecSource::new(vec![1u32, 2, 3, 4]).filter(IsEven).map(TallyDouble {
        calls: 0,
    }).take(0);
    assert!(matches!(chain.next(), Ok(None)));
}

#[test]
fn error_reaches_the_consumer_through_a_chain() {
    let mut chain = VecSource::with_fault(vec![2u32, 4, 9], 2).filter(IsEven).map(TallyDouble {
        calls: 0,
    });
    assert!(matches!(chain.next(), Ok(Some(&4))));
    assert!(matches!(chain.next(), Ok(Some(&8))));
    assert!(matches!(chain.next(), Err(SourceError)));
}
