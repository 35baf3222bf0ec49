use loadgen::category::CategoryStats;
use loadgen::continuous::{ContinuousValueStats, Fraction, StatsError};

fn value(fraction: Fraction) -> f64 {
    fraction.numerator() as f64 / fraction.denominator() as f64
}

#[test]
fn test_continuous_value_stats_mean() {
    let elements: Vec<u64> = vec![10, 3, 1, 6];

    let stats = ContinuousValueStats::new(&elements).unwrap();

    assert_eq!(5f64, value(stats.mean()));
}

#[test]
fn test_continuous_value_stats_median() {
    let elements: Vec<u64> = vec![3, 1, 6];

    let stats = ContinuousValueStats::new(&elements).unwrap();

    assert_eq!(3.0, value(stats.median()));
}

#[test]
fn test_continuous_value_stats_median_for_even_number() {
    let elements: Vec<u64> = vec![10, 3, 1, 6];

    let stats = ContinuousValueStats::new(&elements).unwrap();

    assert_eq!(4.5, value(stats.median()));
}

#[test]
fn test_continuous_value_stats_percentile_90th() {
    let elements = (0..5).rev().collect::<Vec<u64>>();

    let stats = ContinuousValueStats::new(&elements).unwrap();

    assert_eq!(4.0, stats.percentile_90th() as f64);
}

#[test]
fn test_continuous_value_stats_percentile_90th_boundary_value() {
    let elements = (0..100).collect::<Vec<u64>>();

    let stats = ContinuousValueStats::new(&elements).unwrap();

    assert_eq!(90.0, stats.percentile_90th() as f64);
}

#[test]
fn test_category_stats_histogram() {
    let elements = vec![2, 1, 2];

    let stats = CategoryStats::new(elements);

    assert_eq!(1, stats.count_of(1).unwrap());
    assert_eq!(2, stats.count_of(2).unwrap());
    assert_eq!(true, stats.count_of(3).is_none())
}

#[test]
fn continuous_stats_of_nothing_is_no_data() {
    let elements: Vec<u64> = vec![];
    assert_eq!(Err(StatsError::NoData), ContinuousValueStats::new(&elements));
}

#[test]
fn continuous_stats_of_one_sample() {
    let stats = ContinuousValueStats::new(&[7]).unwrap();
    assert_eq!((7, 1), (stats.mean().numerator(), stats.mean().denominator()));
    assert_eq!((7, 1), (stats.median().numerator(), stats.median().denominator()));
    assert_eq!(7, stats.percentile_90th());
}

#[test]
fn mean_is_exact_where_it_is_not_whole() {
    let stats = ContinuousValueStats::new(&[1, 2, 4]).unwrap();
    assert_eq!(7, stats.mean().numerator());
    assert_eq!(3, stats.mean().denominator());
    assert_eq!(2, stats.mean().floor());
}

#[test]
fn mean_of_the_largest_samples_does_not_overflow() {
    let stats = ContinuousValueStats::new(&[u64::MAX, u64::MAX, u64::MAX]).unwrap();
    assert_eq!(3 * (u64::MAX as u128), stats.mean().numerator());
    assert_eq!(u64::MAX as u128, stats.mean().floor());
    assert_eq!(u64::MAX, stats.percentile_90th());
}

#[test]
fn median_of_two_is_their_average() {
    let stats = ContinuousValueStats::new(&[9, 4]).unwrap();
    assert_eq!((13, 2), (stats.median().numerator(), stats.median().denominator()));
}

#[test]
fn percentile_rank_is_nine_tenths_rounded_down() {
    let ten: Vec<u64> = vec![19, 11, 13, 10, 17, 12, 15, 14, 16, 18];
    assert_eq!(19, ContinuousValueStats::new(&ten).unwrap().percentile_90th());
    let nine: Vec<u64> = vec![11, 13, 10, 17, 12, 15, 14, 16, 18];
    assert_eq!(18, ContinuousValueStats::new(&nine).unwrap().percentile_90th());
    let eleven: Vec<u64> = vec![20, 19, 11, 13, 10, 17, 12, 15, 14, 16, 18];
    assert_eq!(19, ContinuousValueStats::new(&eleven).unwrap().percentile_90th());
}

#[test]
fn continuous_stats_do_not_depend_on_order() {
    let a = ContinuousValueStats::new(&[10, 3, 1, 6, 3]).unwrap();
    let b = ContinuousValueStats::new(&[3, 6, 3, 10, 1]).unwrap();
    assert_eq!(a, b);
    assert_eq!(3, a.median().numerator());
    assert_eq!(10, a.percentile_90th());
}

#[test]
fn histogram_does_not_depend_on_order() {
    let a = CategoryStats::new(vec![200, 500, 200, 404, 200]);
    let b = CategoryStats::new(vec![404, 200, 200, 500, 200]);
    for label in [200u64, 404, 500, 503] {
        assert_eq!(a.count_of(label), b.count_of(label));
    }
    assert_eq!(Some(3), a.count_of(200));
    assert_eq!(None, a.count_of(503));
    assert_eq!(3, a.distinct());
}

#[test]
fn histogram_text_lists_every_entry() {
    let stats = CategoryStats::new(vec![2, 1, 2]);
    assert_eq!("[2]: 2, [1]: 1", stats.histogram_as_str());
}

#[test]
fn histogram_text_of_one_label_has_no_separator() {
    let stats = CategoryStats::new(vec![1200, 1200, 1200, 1200, 1200, 1200, 1200, 1200, 1200, 1200]);
    assert_eq!("[1200]: 10", stats.histogram_as_str());
}

#[test]
fn histogram_of_nothing_is_empty() {
    let stats = CategoryStats::new(vec![]);
    assert_eq!("", stats.histogram_as_str());
    assert_eq!(0, stats.distinct());
    assert_eq!(None, stats.count_of(0));
    let empty = CategoryStats::empty();
    assert_eq!("", empty.histogram_as_str());
    assert_eq!(None, empty.count_of(0));
}

#[test]
fn histogram_text_writes_zero_and_the_largest_label() {
    let stats = CategoryStats::new(vec![0, u64::MAX]);
    assert_eq!("[0]: 1, [18446744073709551615]: 1", stats.histogram_as_str());
}
