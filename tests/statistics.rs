use sample_stats::{
    accept_line, calculate_statistics, is_nan_bits, key_bits, median_positions, order_key,
    percentile_index, sorted_copy, LineVerdict, Statistics,
};

fn keys(values: &[f64]) -> Vec<u64> {
    values.iter().map(|v| order_key(v.to_bits())).collect()
}

fn value(key: u64) -> f64 {
    f64::from_bits(key_bits(key))
}

fn median(stats: &Statistics) -> f64 {
    if stats.count % 2 == 0 {
        (value(stats.median_low) + value(stats.median_high)) / 2.0
    } else {
        value(stats.median_high)
    }
}

#[test]
fn keys_follow_total_order() {
    let ascending = [
        f64::NEG_INFINITY,
        -1.0e300,
        -2.5,
        -1.0,
        -f64::MIN_POSITIVE,
        -0.0,
        0.0,
        f64::MIN_POSITIVE,
        1.0,
        2.5,
        1.0e300,
        f64::INFINITY,
    ];
    let k = keys(&ascending);
    for i in 1..k.len() {
        assert!(k[i - 1] < k[i], "keys out of order at {}", i);
    }
}

#[test]
fn key_of_zero_and_negative_zero() {
    assert_eq!(order_key(0.0f64.to_bits()), 0x8000_0000_0000_0000);
    assert_eq!(order_key((-0.0f64).to_bits()), 0x7fff_ffff_ffff_ffff);
    assert_eq!(order_key(1.0f64.to_bits()), 0xbff0_0000_0000_0000);
}

#[test]
fn key_round_trip() {
    for v in [-3.75, -0.0, 0.0, 1.5, 1.0e-310, f64::INFINITY, f64::NEG_INFINITY] {
        let bits = f64::to_bits(v);
        assert_ne!(order_key(bits), bits);
        assert_eq!(key_bits(order_key(bits)), bits);
    }
    assert_eq!(key_bits(0), u64::MAX);
    assert_eq!(key_bits(u64::MAX), 0x7fff_ffff_ffff_ffff);
}

#[test]
fn nan_detection() {
    assert!(is_nan_bits(f64::NAN.to_bits()));
    assert!(is_nan_bits((-f64::NAN).to_bits()));
    assert!(!is_nan_bits(f64::INFINITY.to_bits()));
    assert!(!is_nan_bits(1.0f64.to_bits()));
    assert!(!is_nan_bits(0));
}

#[test]
fn percentile_index_values() {
    assert_eq!(percentile_index(10, 90), 9);
    assert_eq!(percentile_index(10, 99), 9);
    assert_eq!(percentile_index(1, 90), 0);
    assert_eq!(percentile_index(1, 99), 0);
    assert_eq!(percentile_index(100, 99), 99);
    assert_eq!(percentile_index(101, 99), 99);
    assert_eq!(percentile_index(250, 90), 225);
    assert_eq!(percentile_index(0, 90), 0);
    assert_eq!(percentile_index(7, 100), 7);
    let n = usize::MAX;
    assert_eq!(percentile_index(n, 99) as u128, (n as u128) * 99 / 100);
    assert_eq!(percentile_index(n, 90) as u128, (n as u128) * 90 / 100);
}

#[test]
fn median_positions_odd_and_even() {
    assert_eq!(median_positions(1), (0, 0));
    assert_eq!(median_positions(4), (1, 2));
    assert_eq!(median_positions(5), (2, 2));
    assert_eq!(median_positions(10), (4, 5));
}

#[test]
fn sorted_copy_leaves_input() {
    let v: Vec<u64> = vec![3, 1, 2, 1, u64::MAX, 0];
    let s = sorted_copy(&v);
    assert_eq!(s, vec![0, 1, 1, 2, 3, u64::MAX]);
    assert_eq!(v, vec![3, 1, 2, 1, u64::MAX, 0]);
    assert_eq!(sorted_copy(&Vec::new()), Vec::<u64>::new());
}

#[test]
fn sorted_copy_large_reversed() {
    let v: Vec<u64> = (0..5000u64).rev().collect();
    let s = sorted_copy(&v);
    let expected: Vec<u64> = (0..5000u64).collect();
    assert_eq!(s, expected);
}

#[test]
fn empty_sample_has_no_report() {
    assert_eq!(calculate_statistics(&Vec::new()), None);
}

#[test]
fn scenario_one_to_ten() {
    let sample = keys(&[1.0, 2.0, 3.0, 4.0, 5.0, 6.0, 7.0, 8.0, 9.0, 10.0]);
    let stats = calculate_statistics(&sample).unwrap();
    assert_eq!(stats.count, 10);
    assert_eq!(value(stats.min), 1.0);
    assert_eq!(value(stats.max), 10.0);
    assert_eq!(median(&stats), 5.5);
    assert_eq!(value(stats.percentile_90), 10.0);
    assert_eq!(value(stats.percentile_99), 10.0);
}

#[test]
fn scenario_single_value() {
    let sample = keys(&[5.0]);
    let stats = calculate_statistics(&sample).unwrap();
    assert_eq!(stats.count, 1);
    for k in [
        stats.min,
        stats.max,
        stats.median_low,
        stats.median_high,
        stats.percentile_90,
        stats.percentile_99,
    ] {
        assert_eq!(value(k), 5.0);
    }
    assert_eq!(median(&stats), 5.0);
}

#[test]
fn scenario_lines_with_garbage() {
    let lines = ["3", "foo", "", "7", "2"];
    let mut sample: Vec<u64> = Vec::new();
    let mut verdicts = Vec::new();
    for line in lines {
        let trimmed = line.trim();
        let parsed = trimmed.parse::<f64>().ok().map(f64::to_bits);
        verdicts.push(accept_line(&mut sample, trimmed.is_empty(), parsed));
    }
    assert_eq!(
        verdicts,
        vec![
            LineVerdict::Accepted,
            LineVerdict::Unparsable,
            LineVerdict::Blank,
            LineVerdict::Accepted,
            LineVerdict::Accepted
        ]
    );
    let values: Vec<f64> = sample.iter().map(|k| value(*k)).collect();
    assert_eq!(values, vec![3.0, 7.0, 2.0]);
    let stats = calculate_statistics(&sample).unwrap();
    assert_eq!(stats.count, 3);
    assert_eq!(value(stats.min), 2.0);
    assert_eq!(value(stats.max), 7.0);
    assert_eq!(median(&stats), 3.0);
}

#[test]
fn scenario_even_median() {
    let sample = keys(&[1.0, 2.0, 3.0, 4.0]);
    let stats = calculate_statistics(&sample).unwrap();
    assert_eq!(value(stats.median_low), 2.0);
    assert_eq!(value(stats.median_high), 3.0);
    assert_eq!(median(&stats), 2.5);
}

#[test]
fn nan_line_is_rejected() {
    let mut sample = keys(&[1.0]);
    let v = accept_line(&mut sample, false, Some(f64::NAN.to_bits()));
    assert_eq!(v, LineVerdict::NotANumber);
    assert_eq!(sample, keys(&[1.0]));
    let v = accept_line(&mut sample, false, Some((-2.0f64).to_bits()));
    assert_eq!(v, LineVerdict::Accepted);
    assert_eq!(sample, keys(&[1.0, -2.0]));
}

#[test]
fn bounds_hold_on_mixed_sample() {
    let values = [4.5, -3.0, 0.0, -0.0, 12.25, 7.0, -3.0, 1.0e9, 2.0];
    let sample = keys(&values);
    let stats = calculate_statistics(&sample).unwrap();
    assert_eq!(value(stats.min), -3.0);
    assert_eq!(value(stats.max), 1.0e9);
    for k in &sample {
        assert!(stats.min <= *k && *k <= stats.max);
    }
    assert!(stats.min <= stats.median_low && stats.median_high <= stats.max);
    assert!(stats.percentile_90 <= stats.percentile_99);
    assert_eq!(value(stats.median_low), 2.0);
    assert_eq!(value(stats.percentile_90), 1.0e9);
}

#[test]
fn infinities_are_ordered() {
    let sample = keys(&[f64::INFINITY, 1.0, f64::NEG_INFINITY]);
    let stats = calculate_statistics(&sample).unwrap();
    assert_eq!(value(stats.min), f64::NEG_INFINITY);
    assert_eq!(value(stats.max), f64::INFINITY);
    assert_eq!(value(stats.median_high), 1.0);
}

#[test]
fn computing_twice_is_identical() {
    let sample = keys(&[9.0, 1.0, 5.0, 3.0]);
    let copy = sample.clone();
    let first = calculate_statistics(&sample);
    let second = calculate_statistics(&sample);
    assert_eq!(first, second);
    assert_eq!(sample, copy);
}

#[test]
fn shuffled_sample_same_report() {
    let a = keys(&[1.0, 2.0, 3.0, 4.0, 5.0, 6.0, 7.0, 8.0, 9.0, 10.0, 11.0]);
    let b = keys(&[7.0, 11.0, 2.0, 9.0, 1.0, 5.0, 10.0, 3.0, 8.0, 6.0, 4.0]);
    assert_eq!(calculate_statistics(&a), calculate_statistics(&b));
}

#[test]
fn percentiles_on_hundred_values() {
    let values: Vec<f64> = (1..=100).map(|i| i as f64).collect();
    let stats = calculate_statistics(&keys(&values)).unwrap();
    assert_eq!(value(stats.percentile_90), 91.0);
    assert_eq!(value(stats.percentile_99), 100.0);
    assert_eq!(median(&stats), 50.5);
}
