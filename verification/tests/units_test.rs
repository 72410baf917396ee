use lazer_refraction_renderer::units::format_bytes;

#[test]
fn whole_bytes_have_no_decimals() {
    assert_eq!(format_bytes(0), "0 B");
    assert_eq!(format_bytes(7), "7 B");
    assert_eq!(format_bytes(1023), "1023 B");
}

#[test]
fn kilobytes_and_up() {
    assert_eq!(format_bytes(1024), "1.00 KB");
    assert_eq!(format_bytes(1536), "1.50 KB");
    assert_eq!(format_bytes(1048575), "1024.00 KB");
    assert_eq!(format_bytes(1048576), "1.00 MB");
    assert_eq!(format_bytes(5 * 1024 * 1024 * 1024), "5.00 GB");
    assert_eq!(format_bytes(1usize << 40), "1.00 TB");
    assert_eq!(format_bytes(1usize << 50), "1.00 PB");
    assert_eq!(format_bytes(1usize << 60), "1024.00 PB");
}

/// The library agrees with formatting the `f64` quotient, as the renderer's
/// read-out did, on a spread of values including rounding ties.
fn float_reference(bytes: usize) -> String {
    let mut size = bytes as f64;
    let suffixes = ["B", "KB", "MB", "GB", "TB", "PB"];
    let mut i = 0;
    while size >= 1024.0 && i < suffixes.len() - 1 {
        size /= 1024.0;
        i += 1;
    }
    if i == 0 {
        format!("{} {}", bytes, suffixes[i])
    } else {
        format!("{:.2} {}", size, suffixes[i])
    }
}

#[test]
fn matches_float_formatting() {
    let mut samples: Vec<usize> = vec![1029, 1034, 1039, 2047, 2048, 10239, 1_000_000, 123_456_789];
    let mut x: u64 = 0x9E37_79B9_7F4A_7C15;
    for _ in 0..20000 {
        x ^= x << 13;
        x ^= x >> 7;
        x ^= x << 17;
        let shift = (x % 64) as u32;
        samples.push((x >> shift) as usize);
    }
    samples.push(usize::MAX);
    samples.push(usize::MAX - 1);
    samples.push((1usize << 53) + 1);
    samples.push((1usize << 54) + 2);
    for k in 0..4096usize {
        samples.push(1024 + k);
        samples.push(1024 * 1024 + k * 256);
    }
    for b in samples {
        assert_eq!(format_bytes(b), float_reference(b), "bytes = {}", b);
    }
}
