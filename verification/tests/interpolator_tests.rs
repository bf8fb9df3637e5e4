use state_machine::interpolator::{Blend, LinearInterpolator};

fn value(blend: &Blend<f32>) -> f32 {
    let t = blend.numerator as f32 / blend.denominator as f32;
    match blend.next {
        Some(next) => (1.0 - t) * blend.prev + t * next,
        None => (1.0 - t) * blend.prev,
    }
}

fn resample<S: Copy + PartialEq + std::fmt::Debug>(
    samples: Vec<S>,
    target_rate: u32,
    source_rate: u32,
) -> Vec<Blend<S>> {
    let mut interpolator = LinearInterpolator::new(samples, target_rate, source_rate).unwrap();
    let mut blends = Vec::new();
    while let Some(blend) = interpolator.next() {
        blends.push(blend);
    }
    assert_eq!(interpolator.next(), None);
    blends
}

#[test]
fn zero_rates_have_no_resampler() {
    assert!(LinearInterpolator::new(vec![1.0f32], 0, 44_100).is_none());
    assert!(LinearInterpolator::new(vec![1.0f32], 48_000, 0).is_none());
    assert!(LinearInterpolator::new(vec![1.0f32], 0, 0).is_none());
    assert!(LinearInterpolator::new(vec![1.0f32], 1, 1).is_some());
}

#[test]
fn unit_ratio_reproduces_the_input() {
    let input = vec![0.0f32, 150.0, 0.0, -150.0, 100.0];
    for rate in [1u32, 44_100, u32::MAX] {
        let blends = resample(input.clone(), rate, rate);
        assert_eq!(blends.len(), input.len());
        for (index, blend) in blends.iter().enumerate() {
            assert_eq!(
                *blend,
                Blend {
                    prev: input[index],
                    next: input.get(index + 1).copied(),
                    numerator: 0,
                    denominator: rate
                }
            );
            assert_eq!(value(blend), input[index]);
        }
    }
}

#[test]
fn fixture_at_three_halves_is_reproducible() {
    let input = vec![0.0f32, 150.0, 0.0, -150.0, 100.0];
    let blends = resample(input.clone(), 3, 2);
    let expected = vec![
        Blend { prev: 0.0, next: Some(150.0), numerator: 0, denominator: 3 },
        Blend { prev: 0.0, next: Some(150.0), numerator: 2, denominator: 3 },
        Blend { prev: 150.0, next: Some(0.0), numerator: 1, denominator: 3 },
        Blend { prev: 0.0, next: Some(-150.0), numerator: 0, denominator: 3 },
        Blend { prev: 0.0, next: Some(-150.0), numerator: 2, denominator: 3 },
        Blend { prev: -150.0, next: Some(100.0), numerator: 1, denominator: 3 },
        Blend { prev: 100.0, next: None, numerator: 0, denominator: 3 },
        Blend { prev: 100.0, next: None, numerator: 2, denominator: 3 },
    ];
    assert_eq!(blends, expected);
    assert_eq!(resample(input, 3, 2), expected);
    let values: Vec<f32> = blends.iter().map(value).collect();
    let wanted = [0.0f32, 100.0, 100.0, 0.0, -100.0, -66.666_67, 100.0, 33.333_33];
    assert_eq!(values.len(), wanted.len());
    for (got, want) in values.iter().zip(wanted.iter()) {
        assert!((got - want).abs() < 1e-3, "{} is not {}", got, want);
    }
}

#[test]
fn ratio_is_what_counts_not_the_rates() {
    let input = vec![0.0f32, 150.0, 0.0, -150.0, 100.0];
    let small: Vec<f32> = resample(input.clone(), 3, 2).iter().map(value).collect();
    let large: Vec<f32> = resample(input, 48_000, 32_000).iter().map(value).collect();
    assert_eq!(small.len(), large.len());
    for (a, b) in small.iter().zip(large.iter()) {
        assert!((a - b).abs() < 1e-3);
    }
}

#[test]
fn doubling_the_rate_inserts_midpoints() {
    let values: Vec<f32> = resample(vec![0.0f32, 10.0, 20.0], 2, 1).iter().map(value).collect();
    assert_eq!(values, vec![0.0, 5.0, 10.0, 15.0, 20.0, 10.0]);
}

#[test]
fn source_moves_on_at_most_once_per_request() {
    let blends = resample(vec![1i16, 2, 3, 4, 5, 6], 1, 2);
    let starts: Vec<i16> = blends.iter().map(|blend| blend.prev).collect();
    assert_eq!(starts, vec![1, 2, 3, 4, 5, 6]);
    let weights: Vec<u128> = blends.iter().map(|blend| blend.numerator).collect();
    assert_eq!(weights, vec![0, 1, 2, 3, 4, 5]);
    assert!(blends.iter().all(|blend| blend.denominator == 1));
}

#[test]
fn empty_and_single_sample_sources() {
    assert_eq!(resample(Vec::<f32>::new(), 3, 2), Vec::new());
    let blends = resample(vec![7i16], 2, 1);
    assert_eq!(
        blends,
        vec![
            Blend { prev: 7, next: None, numerator: 0, denominator: 2 },
            Blend { prev: 7, next: None, numerator: 1, denominator: 2 },
        ]
    );
}

#[test]
fn whole_stream_is_resampled_and_evaluated() {
    let input = vec![0.0f32, 150.0, 0.0, -150.0, 100.0];
    let evaluate = |blend: Blend<f32>| value(&blend);
    let output = LinearInterpolator::resample(input.clone(), 3, 2, &evaluate).unwrap();
    let expected: Vec<f32> = resample(input.clone(), 3, 2).iter().map(value).collect();
    assert_eq!(output, expected);
    assert_eq!(output.len(), 8);
    assert_eq!(LinearInterpolator::resample(input.clone(), 7, 7, &evaluate), Some(input.clone()));
    assert_eq!(LinearInterpolator::resample(input.clone(), 0, 2, &evaluate), None);
    assert_eq!(LinearInterpolator::resample(input, 3, 0, &evaluate), None);
    assert_eq!(LinearInterpolator::resample(Vec::new(), 3, 2, &evaluate), Some(Vec::new()));
}

#[test]
fn whole_stream_is_evaluated_request_by_request() {
    let numerators = |blend: Blend<i16>| blend.numerator as i16 + 10 * blend.prev;
    let output = LinearInterpolator::resample(vec![1i16, 2, 3], 2, 1, &numerators).unwrap();
    assert_eq!(output, vec![10, 11, 20, 21, 30, 31]);
}
