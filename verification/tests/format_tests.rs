use dictation_core::format::{decimal_text, format_size};

#[test]
fn test_format_size() {
    assert_eq!(format_size(500), "500 bytes");
    assert_eq!(format_size(1024), "1 KB");
    assert_eq!(format_size(75_000_000), "72 MB"); // 75M / 1024 / 1024 ≈ 71.5 → rounds to 72
    assert_eq!(format_size(1_500_000_000), "1.4 GB");
}

#[test]
fn sizes_round_to_the_nearest_with_halves_to_even() {
    assert_eq!(format_size(0), "0 bytes");
    assert_eq!(format_size(1023), "1023 bytes");
    assert_eq!(format_size(1536), "2 KB");
    assert_eq!(format_size(2560), "2 KB");
    assert_eq!(format_size(3584), "4 KB");
    assert_eq!(format_size(1_048_575), "1024 KB");
    assert_eq!(format_size(1_048_576), "1 MB");
    assert_eq!(format_size(1_572_864), "2 MB");
    assert_eq!(format_size(2_621_440), "2 MB");
    assert_eq!(format_size(1_073_741_823), "1024 MB");
    assert_eq!(format_size(1_073_741_824), "1.0 GB");
    assert_eq!(format_size(1_342_177_280), "1.2 GB");
    assert_eq!(format_size(1_879_048_192), "1.8 GB");
    assert_eq!(format_size(2_900_000_000), "2.7 GB");
    assert_eq!(format_size(u64::MAX), "17179869184.0 GB");
}

#[test]
fn sizes_agree_with_float_formatting() {
    let kb = 1024u64;
    let mb = kb * 1024;
    let gb = mb * 1024;
    let mut samples: Vec<u64> = vec![0, 1, 9, 10, 99, 100, 1023, 1024, 1025, u64::MAX, u64::MAX - 1];
    for shift in 0..64u32 {
        let base = 1u64 << shift;
        for delta in [0u64, 1, 2, 3, 5, 7] {
            samples.push(base.wrapping_add(delta));
            samples.push(base.wrapping_sub(delta));
            samples.push((base / 4).wrapping_mul(5).wrapping_add(delta));
            samples.push((base / 8).wrapping_mul(13).wrapping_sub(delta));
        }
    }
    let mut state = 0x9e37_79b9_7f4a_7c15u64;
    for _ in 0..20_000 {
        state ^= state << 13;
        state ^= state >> 7;
        state ^= state << 17;
        samples.push(state);
        samples.push(state >> 20);
        samples.push(state >> 34);
        samples.push(state >> 44);
        samples.push((state >> 36) * (gb / 20) + (gb / 20) * ((state >> 3) & 1));
    }
    for bytes in samples {
        let expected = if bytes >= gb {
            format!("{:.1} GB", bytes as f64 / gb as f64)
        } else if bytes >= mb {
            format!("{:.0} MB", bytes as f64 / mb as f64)
        } else if bytes >= kb {
            format!("{:.0} KB", bytes as f64 / kb as f64)
        } else {
            format!("{} bytes", bytes)
        };
        assert_eq!(format_size(bytes), expected, "{} bytes", bytes);
    }
}

#[test]
fn decimal_text_of_numbers() {
    assert_eq!(decimal_text(0), "0");
    assert_eq!(decimal_text(7), "7");
    assert_eq!(decimal_text(10), "10");
    assert_eq!(decimal_text(1_234_567_890), "1234567890");
    assert_eq!(decimal_text(u64::MAX), "18446744073709551615");
}
