use async_downloader::{human_bytes, human_speed, Speed};

/// The text that floating-point arithmetic gives.
fn by_floats(bytes: u64) -> String {
    let units: [&str; 5] = ["B", "KiB", "MiB", "GiB", "TiB"];
    let mut value: f64 = bytes as f64;
    let mut unit: usize = 0;
    while value >= 1024.0 && unit < 4 {
        value /= 1024.0;
        unit += 1;
    }
    if unit == 0 {
        format!("{bytes} {}", units[0])
    } else {
        format!("{value:.1} {}", units[unit])
    }
}

fn next(state: &mut u64) -> u64 {
    *state ^= *state << 13;
    *state ^= *state >> 7;
    *state ^= *state << 17;
    *state
}

#[test]
fn sizes_are_readable() {
    assert_eq!(human_bytes(0), "0 B");
    assert_eq!(human_bytes(7), "7 B");
    assert_eq!(human_bytes(1023), "1023 B");
    assert_eq!(human_bytes(1024), "1.0 KiB");
    assert_eq!(human_bytes(1536), "1.5 KiB");
    assert_eq!(human_bytes(1024 * 1024 - 1), "1024.0 KiB");
    assert_eq!(human_bytes(1024 * 1024), "1.0 MiB");
    assert_eq!(human_bytes(1024 * 1024 * 1024), "1.0 GiB");
    assert_eq!(human_bytes(1024 * 1024 * 1024 * 1024), "1.0 TiB");
    assert_eq!(human_bytes(5 * 1024 * 1024 * 1024 * 1024 * 1024), "5120.0 TiB");
    assert_eq!(human_bytes(u64::MAX), "16777216.0 TiB");
}

#[test]
fn halves_go_to_the_even_tenth() {
    assert_eq!(human_bytes(1024 + 256), "1.2 KiB");
    assert_eq!(human_bytes(1024 + 768), "1.8 KiB");
}

#[test]
fn sizes_are_those_of_floating_point() {
    for bytes in 0u64..200_000 {
        assert_eq!(human_bytes(bytes), by_floats(bytes));
    }
    for shift in 10u32..64 {
        for offset in 0u64..3000 {
            let above: u64 = (1u64 << shift) + offset * 7;
            let below: u64 = (1u64 << shift) - 1 - (offset % (1u64 << shift));
            assert_eq!(human_bytes(above), by_floats(above));
            assert_eq!(human_bytes(below), by_floats(below));
        }
    }
    for offset in 0u64..5000 {
        let bytes: u64 = u64::MAX - offset;
        assert_eq!(human_bytes(bytes), by_floats(bytes));
    }
}

#[test]
fn sizes_near_the_middle_of_two_tenths() {
    let tib: u64 = 1 << 40;
    let mut state: u64 = 88172645463325252;
    for _ in 0u32..2000 {
        let tenths: u64 = next(&mut state) % 167_000_000;
        let middle: u128 = (2 * tenths as u128 + 1) * tib as u128 / 20;
        if middle < u64::MAX as u128 - 5000 && middle > 5000 {
            for offset in 0u64..60 {
                let bytes: u64 = middle as u64 + offset * 97 - 2900;
                assert_eq!(human_bytes(bytes), by_floats(bytes));
            }
        }
    }
    for _ in 0u32..200_000 {
        let shift: u32 = (next(&mut state) % 64) as u32;
        let bytes: u64 = next(&mut state) >> shift;
        assert_eq!(human_bytes(bytes), by_floats(bytes));
    }
}

fn speed_by_floats(bytes_per_second: f64) -> String {
    if bytes_per_second <= 0.0 {
        return "\u{2014}".to_owned();
    }
    format!("{}/s", by_floats(bytes_per_second as u64))
}

fn speed_of(bytes_per_second: f64) -> String {
    human_speed(Speed::from_bits(bytes_per_second.to_bits()))
}

#[test]
fn speeds_are_readable() {
    assert_eq!(speed_of(0.0), "\u{2014}");
    assert_eq!(speed_of(-0.0), "\u{2014}");
    assert_eq!(speed_of(-12.5), "\u{2014}");
    assert_eq!(speed_of(f64::NEG_INFINITY), "\u{2014}");
    assert_eq!(speed_of(0.9), "0 B/s");
    assert_eq!(speed_of(1.0), "1 B/s");
    assert_eq!(speed_of(1536.9), "1.5 KiB/s");
    assert_eq!(speed_of(f64::INFINITY), "16777216.0 TiB/s");
    assert_eq!(speed_of(f64::NAN), "0 B/s");
    assert_eq!(speed_of(-f64::NAN), "0 B/s");
}

#[test]
fn speeds_are_those_of_floating_point() {
    let mut state: u64 = 362436069362436069;
    for _ in 0u32..300_000 {
        let value: f64 = f64::from_bits(next(&mut state));
        assert_eq!(speed_of(value), speed_by_floats(value));
    }
    for _ in 0u32..300_000 {
        let shift: u32 = (next(&mut state) % 64) as u32;
        let value: f64 = (next(&mut state) >> shift) as f64 / 1024.0;
        assert_eq!(speed_of(value), speed_by_floats(value));
        assert_eq!(Speed::from_bits(value.to_bits()).truncate(), value as u64);
    }
    for exponent in 0u64..2048 {
        for fraction in [0u64, 1, 1 << 51, (1 << 52) - 1] {
            let value: f64 = f64::from_bits(exponent << 52 | fraction);
            let speed: Speed = Speed::from_bits(value.to_bits());
            assert_eq!(speed.truncate(), value as u64);
            assert_eq!(speed.is_at_most_zero(), value <= 0.0);
            assert_eq!(speed.is_zero(), value == 0.0);
            assert_eq!(speed.is_rate(), value.is_finite() && value >= 0.0);
            let negative: Speed = Speed::from_bits((-value).to_bits());
            assert_eq!(negative.is_rate(), value == 0.0);
        }
    }
}

#[test]
fn zero_has_either_sign() {
    assert!(Speed::zero().is_zero());
    assert!(Speed::from_bits((-0.0f64).to_bits()).is_zero());
    assert!(!Speed::from_bits(1).is_zero());
    assert_eq!(f64::from_bits(Speed::zero().bits), 0.0);
}
