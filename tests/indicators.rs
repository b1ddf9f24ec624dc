use rushtrader::{
    CrossOverIndicator, DataLine, DataLineFeed, EMAIndicator, LinearregSlopeIndicator,
    MOMIndicator, MaxIndicator, MinIndicator, SMAIndicator, Series,
};

/// Price units of 1e-8.
fn fx(v: f64) -> i64 {
    (v * 1e8).round() as i64
}

fn fxs(vs: &[f64]) -> Vec<i64> {
    vs.iter().map(|v| fx(*v)).collect()
}

#[test]
fn test_cross_over_indicator() {
    let d1 = Series::new(fxs(&[0.1, 0.3, 0.2, 0.3, 0.5, 0.6]), 0);
    let d2 = Series::new(fxs(&[0., 0.1, 0.4, 0.5, 0.5, 0.3]), 1);
    let mut ind = CrossOverIndicator::new();
    ind.feed(&d1, &d2);
    assert_eq!(ind.data.len(), d1.data.len());
    // Both inputs are valid from 1; the direction is seeded there, so the
    // first cross can be told at 2.
    assert_eq!(ind.start_pos, 2);
    // A falls below B at 2 and rises above it again at 5; the equal values at
    // 4 keep the last direction.
    assert_eq!(ind.data, vec![0, 0, -1, 0, 0, 1]);
}

#[test]
fn cross_over_at_first_computable_sample() {
    // The direction comes from the sample before the first output, not from zero.
    let a = Series::new(vec![5, 1, 1], 0);
    let b = Series::new(vec![3, 3, 3], 0);
    let mut ind = CrossOverIndicator::new();
    ind.feed(&a, &b);
    assert_eq!(ind.start_pos, 1);
    assert_eq!(ind.at(0), None);
    assert_eq!(ind.at(1), Some(-1));
    assert_eq!(ind.at(2), Some(0));
}

#[test]
fn test_sma_indicator() {
    let d1 = Series::new(fxs(&[1., 2., 3., 4., 5.]), 0);
    let mut ind = SMAIndicator::new(2);
    ind.feed(&d1);
    assert_eq!(ind.start_pos, 1);
    assert_eq!(ind.data, fxs(&[0., 1.5, 2.5, 3.5, 4.5]));
    let d2 = Series::new(fxs(&[1., 2., 1., 2., 1.]), 1);
    ind.period = 3;
    ind.feed(&d2);
    assert_eq!(ind.data.len(), 5);
    assert_eq!(ind.start_pos, 3);
    assert_eq!(ind.at(3), Some(fx(1.6666666666666667)));
}

#[test]
fn sma_rounds_to_nearest_unit() {
    let d = Series::new(vec![1, 2, -1, -2], 0);
    let mut ind = SMAIndicator::new(2);
    ind.feed(&d);
    // 1.5 -> 2, 0.5 -> 1, -1.5 -> -1
    assert_eq!(ind.data, vec![0, 2, 1, -1]);
}

#[test]
fn test_max_indicator() {
    let d1 = Series::new(fxs(&[1.; 4]), 1);
    let d2 = Series::new(fxs(&[2.; 4]), 0);
    let mut ind = MaxIndicator::new();
    ind.feed(&d1, &d2);
    assert_eq!(ind.data.len(), 4);
    assert_eq!(ind.inner().1, 1);
    assert_eq!(ind.at(0), None);
    assert_eq!(ind.at(1), Some(fx(2.)));

    let d3 = Series::new(fxs(&[3.; 4]), 0);
    ind.feed(&d1, &d3);
    assert_eq!(ind.data.len(), 4);
    assert_eq!(ind.data, fxs(&[0., 3., 3., 3.]));
}

#[test]
fn min_indicator_takes_smaller_value() {
    let a = Series::new(vec![4, 1, 7, 3], 2);
    let b = Series::new(vec![2, 5, 6, 9], 0);
    let mut ind = MinIndicator::new();
    ind.feed(&a, &b);
    assert_eq!(ind.start_pos, 2);
    assert_eq!(ind.data, vec![0, 0, 6, 3]);
    assert_eq!(ind.at(1), None);
    assert_eq!(ind.at(4), None);
}

#[test]
fn test_mom_indicator() {
    let d1 = Series::new(fxs(&[1., 1., 2., 3., 5., 8., 13.]), 0);
    let mut ind = MOMIndicator::new(2);
    ind.feed(&d1);
    assert_eq!(ind.data, fxs(&[0., 0., 1., 2., 3., 5., 8.]));
    assert_eq!(ind.start_pos, 2);
    assert_eq!(ind.at(1), None);
    assert_eq!(ind.at(6), Some(fx(8.)));
}

#[test]
fn ema_seeds_with_simple_mean() {
    let d = Series::new(fxs(&[1., 2., 3., 4., 5.]), 0);
    let mut ind = EMAIndicator::new(2);
    ind.feed(&d);
    assert_eq!(ind.start_pos, 1);
    // seed 1.5, then (2 x + ema) / 3
    assert_eq!(ind.data, fxs(&[0., 1.5, 2.5, 3.5, 4.5]));
}

#[test]
fn ema_smoothing_factor() {
    let d = Series::new(vec![0, 0, 0, 90, 0], 1);
    let mut ind = EMAIndicator::new(3);
    ind.feed(&d);
    assert_eq!(ind.start_pos, 3);
    // seed mean(0, 0, 90) = 30, then (2 * 0 + 2 * 30) / 4 = 15
    assert_eq!(ind.data, vec![0, 0, 0, 30, 15]);
}

#[test]
fn slope_of_a_line_and_a_parabola() {
    let d = Series::new(fxs(&[1., 2., 3., 4., 5.]), 0);
    let mut ind = LinearregSlopeIndicator::new(3);
    ind.feed(&d);
    assert_eq!(ind.start_pos, 2);
    assert_eq!(ind.data, fxs(&[0., 0., 1., 1., 1.]));

    let q = Series::new(vec![1, 4, 9, 16], 0);
    let mut s = LinearregSlopeIndicator::new(3);
    s.feed(&q);
    assert_eq!(s.data, vec![0, 0, 4, 6]);

    let mut s4 = LinearregSlopeIndicator::new(4);
    s4.feed(&q);
    // slope of (0,1), (1,4), (2,9), (3,16) is 5
    assert_eq!(s4.at(3), Some(5));
}

#[test]
fn output_length_and_presence() {
    let d = Series::new((1..=10).collect(), 2);
    let mut sma = SMAIndicator::new(3);
    sma.feed(&d);
    let mut mom = MOMIndicator::new(3);
    mom.feed(&d);
    let mut ema = EMAIndicator::new(4);
    ema.feed(&sma);
    assert_eq!(sma.data.len(), 10);
    assert_eq!(mom.data.len(), 10);
    assert_eq!(ema.data.len(), 10);
    assert_eq!(sma.start_pos, 4);
    assert_eq!(mom.start_pos, 5);
    assert_eq!(ema.start_pos, 7);
    for i in 0..12 {
        assert_eq!(sma.at(i).is_some(), (4..10).contains(&i));
        assert_eq!(mom.at(i).is_some(), (5..10).contains(&i));
        assert_eq!(ema.at(i).is_some(), (7..10).contains(&i));
    }
}

#[test]
fn window_longer_than_history_gives_no_values() {
    let d = Series::new(vec![1, 2, 3], 1);
    let mut sma = SMAIndicator::new(5);
    sma.feed(&d);
    assert_eq!(sma.data.len(), 3);
    assert_eq!(sma.start_pos, 5);
    assert_eq!(sma.at(2), None);
}

#[test]
fn refeeding_is_idempotent() {
    let d = Series::new(vec![3, 9, 2, 7, 7, 1, 8], 1);
    let mut sma = SMAIndicator::new(3);
    sma.feed(&d);
    let first = sma.data.clone();
    sma.feed(&d);
    assert_eq!(sma.data, first);

    let mut ema = EMAIndicator::new(2);
    ema.feed(&d);
    let first = ema.data.clone();
    ema.feed(&d);
    assert_eq!(ema.data, first);

    let other = Series::new(vec![5, 5, 5, 5, 5, 5, 5], 0);
    let mut cross = CrossOverIndicator::new();
    cross.feed(&d, &other);
    let first = cross.data.clone();
    cross.feed(&d, &other);
    assert_eq!(cross.data, first);
    assert_eq!(cross.data, vec![0, 0, -1, 1, 0, -1, 1]);
}
