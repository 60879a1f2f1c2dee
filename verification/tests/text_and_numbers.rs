use bottle::decimal::{i32_to_decimal, i64_to_decimal, parse_i32, parse_i64, u64_to_decimal, zero_padded_decimal};
use bottle::paths::{extension, extension_of_name, file_name, file_stem, path_join, stem_of_name};
use bottle::text::{contains_text, text_eq, text_of};

#[test]
fn decimal_of_unsigned_numbers() {
    assert_eq!(u64_to_decimal(0), "0");
    assert_eq!(u64_to_decimal(7), "7");
    assert_eq!(u64_to_decimal(1234567890), "1234567890");
    assert_eq!(u64_to_decimal(u64::MAX), u64::MAX.to_string());
}

#[test]
fn decimal_of_signed_numbers() {
    assert_eq!(i64_to_decimal(-42), "-42");
    assert_eq!(i64_to_decimal(0), "0");
    assert_eq!(i64_to_decimal(i64::MIN), i64::MIN.to_string());
    assert_eq!(i64_to_decimal(i64::MAX), i64::MAX.to_string());
    assert_eq!(i32_to_decimal(i32::MIN), i32::MIN.to_string());
    assert_eq!(i32_to_decimal(305), "305");
}

#[test]
fn zero_padding_matches_format() {
    assert_eq!(zero_padded_decimal(7, 3), format!("{:03}", 7));
    assert_eq!(zero_padded_decimal(-7, 4), format!("{:04}", -7));
    assert_eq!(zero_padded_decimal(12345, 2), format!("{:02}", 12345));
    assert_eq!(zero_padded_decimal(0, 0), format!("{:00}", 0));
}

#[test]
fn parsing_integers_like_std() {
    for s in ["0", "42", "-42", "+42", "", "-", "+", "4 2", "x1", "9223372036854775807", "9223372036854775808",
        "-9223372036854775808", "-9223372036854775809", "007"] {
        assert_eq!(parse_i64(s), s.parse::<i64>().ok(), "{}", s);
        assert_eq!(parse_i32(s), s.parse::<i32>().ok(), "{}", s);
    }
    assert_eq!(parse_i32("2147483648"), None);
    assert_eq!(parse_i32("-2147483648"), Some(i32::MIN));
}

#[test]
fn decimal_roundtrip_on_values() {
    for n in [0i64, 1, -1, 99, -100, i64::MIN, i64::MAX, 1_000_000_007] {
        assert_eq!(parse_i64(&i64_to_decimal(n)), Some(n));
    }
}

#[test]
fn file_names_like_std_path() {
    for p in ["a/b.jpg", "b.tar.gz", "/", "", "..", "a/..", "a/.", "a/b/", ".hidden", "dir/.hidden.png", "a//b",
        "x."] {
        let expected = std::path::Path::new(p).file_name().map(|s| s.to_string_lossy().to_string());
        assert_eq!(file_name(p), expected, "{}", p);
        let stem = std::path::Path::new(p).file_stem().map(|s| s.to_string_lossy().to_string());
        assert_eq!(file_stem(p), stem, "{}", p);
        let ext = std::path::Path::new(p).extension().map(|s| s.to_string_lossy().to_string());
        assert_eq!(extension(p), ext, "{}", p);
    }
}

#[test]
fn stem_and_extension_rebuild_the_name() {
    for n in ["photo.jpg", "a.b.c", "x.", "archive.tar.gz"] {
        let e = extension_of_name(n).unwrap();
        assert_eq!(format!("{}.{}", stem_of_name(n), e), n);
        assert!(!e.contains('.'));
    }
    assert_eq!(extension_of_name(".hidden"), None);
    assert_eq!(stem_of_name(".hidden"), ".hidden");
}

#[test]
fn joining_paths_like_std_path() {
    for (a, b) in [("a", "b"), ("a/", "b"), ("", "b"), ("a", "/b"), ("/root", "x/y.png"), ("a", "")] {
        let expected = std::path::Path::new(a).join(b).to_string_lossy().to_string();
        assert_eq!(path_join(a, b), expected, "{} {}", a, b);
    }
}

#[test]
fn text_helpers() {
    assert!(text_eq("abc", "abc"));
    assert!(!text_eq("abc", "abd"));
    assert!(!text_eq("abc", "ab"));
    assert_eq!(text_of("héllo"), "héllo");
    assert!(contains_text("https://i.pximg.net/img/1.png", "pximg.net"));
    assert!(!contains_text("https://example.com/1.png", "pximg.net"));
    assert!(contains_text("abc", ""));
    assert!(!contains_text("ab", "abc"));
}
