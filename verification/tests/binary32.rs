use agitech_pump::binary32::Binary32;

fn num(x: f32) -> Binary32 {
    Binary32::from_bits(x.to_bits())
}

fn same(a: Binary32, b: f32) -> bool {
    let a = f32::from_bits(a.to_bits());
    if b.is_nan() {
        a.is_nan()
    } else {
        a.to_bits() == b.to_bits()
    }
}

/// Zeros, subnormals, the edges of every kind of number, and what is no number.
fn edges() -> Vec<f32> {
    let mut bits: Vec<u32> = vec![
        0, 1, 2, 3, 0x007f_ffff, 0x0080_0000, 0x0080_0001, 0x00ff_ffff, 0x0100_0000, 0x3380_0000,
        0x33ff_ffff, 0x3f00_0000, 0x3f7f_ffff, 0x3f80_0000, 0x3f80_0001, 0x3fc0_0000, 0x4000_0000,
        0x4b00_0000, 0x4b7f_ffff, 0x4b80_0000, 0x4b80_0001, 0x5f7f_ffff, 0x5f80_0000, 0x7e7f_ffff,
        0x7f00_0000, 0x7f7f_fffe, 0x7f7f_ffff, 0x7f80_0000, 0x7f80_0001, 0x7fc0_0000, 0x7fff_ffff,
        0x3c75_c28f, 0x3ca3_d70a, 0x3ccc_cccd, 0x3dcc_cccd, 0x3e4c_cccd, 0x3ecc_cccd, 0x3f99_999a,
        0x4060_0000, 0x40c0_0000, 0x40e0_0000, 0x4108_0000, 0x41a0_0000, 0x41c0_0000,
    ];
    let signed: Vec<u32> = bits.iter().map(|b| b | 0x8000_0000).collect();
    bits.extend(signed);
    bits.into_iter().map(f32::from_bits).collect()
}

/// Numbers spread over all encodings.
fn spread(count: usize, seed: u64) -> Vec<f32> {
    let mut state = seed;
    let mut list = Vec::new();
    while list.len() < count {
        state = state.wrapping_mul(6364136223846793005).wrapping_add(1442695040888963407);
        list.push(f32::from_bits((state >> 32) as u32));
    }
    list
}

fn agree(a: f32, b: f32) {
    let (x, y) = (num(a), num(b));
    assert!(same(x.plus(y), a + b), "{a:e} + {b:e}");
    assert!(same(x.minus(y), a - b), "{a:e} - {b:e}");
    assert!(same(x.times(y), a * b), "{a:e} * {b:e}");
    assert!(same(x.over(y), a / b), "{a:e} / {b:e}");
    assert_eq!(x.is_below(y), a < b, "{a:e} < {b:e}");
    assert_eq!(x.is_at_most(y), a <= b, "{a:e} <= {b:e}");
    if a != 0.0 || b != 0.0 {
        assert!(same(x.max(y), a.max(b)), "max of {a:e} and {b:e}");
    }
    assert!(same(x.abs(), a.abs()), "|{a:e}|");
    assert_eq!(x.trunc_u64(), a as u64, "whole part of {a:e}");
    if b >= 0.0 {
        assert!(same(x.clamp(num(0.0), y), a.clamp(0.0, b)), "{a:e} held up to {b:e}");
    }
}

#[test]
fn edge_values_compute_as_the_hardware_does() {
    let list = edges();
    for a in &list {
        for b in &list {
            agree(*a, *b);
        }
    }
}

#[test]
fn spread_values_compute_as_the_hardware_does() {
    let a = spread(60_000, 1);
    let b = spread(60_000, 99);
    for i in 0..a.len() {
        agree(a[i], b[i]);
    }
}

#[test]
fn values_of_one_scale_compute_as_the_hardware_does() {
    let a = spread(40_000, 7);
    let b = spread(40_000, 13);
    for i in 0..a.len() {
        let near = |x: f32| f32::from_bits((x.to_bits() & 0x80ff_ffff) | 0x3f00_0000);
        agree(near(a[i]), near(b[i]));
    }
}

#[test]
fn whole_parts_saturate() {
    assert_eq!(num(0.99).trunc_u64(), 0);
    assert_eq!(num(240.096).trunc_u64(), 240);
    assert_eq!(num(-3.5).trunc_u64(), 0);
    assert_eq!(num(f32::NAN).trunc_u64(), 0);
    assert_eq!(num(f32::INFINITY).trunc_u64(), u64::MAX);
    assert_eq!(num(1.0e19).trunc_u64(), 1.0e19f32 as u64);
    assert_eq!(num(3.0e19).trunc_u64(), u64::MAX);
}

#[test]
fn ratios_are_the_nearest_numbers() {
    let cases: [(u32, u32, f32); 12] = [
        (0, 1, 0.0),
        (1, 1, 1.0),
        (12, 10, 1.2),
        (5, 100, 0.05),
        (1, 10, 0.1),
        (15, 1000, 0.015),
        (25, 1000, 0.025),
        (833, 100000, 0.00833),
        (85, 10, 8.5),
        (1, 3, 1.0 / 3.0),
        (16777217, 1, 16777216.0),
        (u32::MAX, 1, 4294967296.0),
    ];
    for (n, d, expected) in cases {
        assert!(same(Binary32::from_ratio(n, d), expected), "{n}/{d}");
    }
}

#[test]
fn ties_go_to_the_even_number() {
    assert!(same(num(16777216.0).plus(num(1.0)), 16777216.0));
    assert!(same(num(16777218.0).plus(num(1.0)), 16777220.0));
    assert!(same(num(f32::MAX).plus(num(f32::MAX)), f32::INFINITY));
    assert!(same(num(f32::from_bits(1)).times(num(0.5)), 0.0));
    assert!(same(num(f32::from_bits(3)).times(num(0.5)), f32::from_bits(2)));
}

#[test]
fn order_follows_value() {
    let mut list: Vec<f32> = edges().into_iter().filter(|x| !x.is_nan()).collect();
    list.sort_by(|a, b| a.partial_cmp(b).unwrap());
    for pair in list.windows(2) {
        assert!(num(pair[0]).is_at_most(num(pair[1])));
        assert!(!num(pair[1]).is_below(num(pair[0])));
    }
    assert!(num(-0.0).is_at_most(num(0.0)) && num(0.0).is_at_most(num(-0.0)));
    assert!(!num(f32::NAN).is_at_most(num(f32::NAN)));
}

#[test]
fn quotients_keep_order() {
    let capacity = num(0.00833);
    let mut longest = 0;
    for step in 0..2000u32 {
        let seconds = num(step as f32 * 0.001).over(capacity).trunc_u64();
        assert!(seconds >= longest);
        longest = seconds;
    }
    assert_eq!(longest, 239);
}

#[test]
fn exact_values_stay_as_they_are() {
    for x in spread(20_000, 5) {
        if x.is_finite() {
            assert!(same(num(x).times(num(1.0)), x));
            assert!(same(num(x).over(num(1.0)), x));
        }
    }
}
