use seco::app::{App, StorageDriver};
use seco::models::users;
use seco::text::{push_decimal, push_hex_lower, push_signed_decimal, push_zero_padded, str_eq};

fn decimal(n: u64) -> String {
    let mut s = String::new();
    push_decimal(&mut s, n);
    s
}

#[test]
fn decimal_renders_like_display() {
    assert_eq!(decimal(0), "0");
    assert_eq!(decimal(42), "42");
    assert_eq!(decimal(1000), "1000");
    assert_eq!(decimal(u64::MAX), u64::MAX.to_string());
}

#[test]
fn signed_decimal_renders_like_display() {
    for n in [0i64, 7, -7, 1234567, i64::MIN, i64::MAX] {
        let mut s = String::from(">");
        push_signed_decimal(&mut s, n);
        assert_eq!(s, format!(">{}", n));
    }
}

#[test]
fn zero_padding_matches_format_width() {
    for n in [0u64, 1, 7, 42, 999, 1000, 123456] {
        let mut s = String::new();
        push_zero_padded(&mut s, n, 3);
        assert_eq!(s, format!("{:03}", n));
    }
}

#[test]
fn hex_is_lowercase_two_digits_per_byte() {
    let mut s = String::new();
    push_hex_lower(&mut s, &[0x00, 0x0a, 0xff, 0x10]);
    assert_eq!(s, "000aff10");
}

#[test]
fn str_eq_compares_text() {
    assert!(str_eq("ktp_photo", "ktp_photo"));
    assert!(!str_eq("ktp_photo", "ktp_photos"));
    assert!(!str_eq("", "a"));
    assert!(str_eq("", ""));
}

#[test]
fn pid_text_is_the_hyphenated_uuid() {
    let v: u128 = 0x67e5504410b1426f9247bb680e5fe0c8;
    assert_eq!(users::pid_text(v), "67e55044-10b1-426f-9247-bb680e5fe0c8");
    for v in [0u128, 1, u128::MAX, 0x0123456789abcdef0123456789abcdef] {
        assert_eq!(users::pid_text(v), uuid::Uuid::from_u128(v).to_string());
    }
}

#[test]
fn app_version_prefers_build_sha_then_github_sha_then_dev() {
    assert_eq!(App::app_version("0.1.0", Some("abc"), Some("def")), "0.1.0 (abc)");
    assert_eq!(App::app_version("0.1.0", None, Some("def")), "0.1.0 (def)");
    assert_eq!(App::app_version("0.1.0", None, None), "0.1.0 (dev)");
}

#[test]
fn tests_keep_uploads_in_memory_and_others_on_disk() {
    assert_eq!(App::storage_driver(true), StorageDriver::Memory);
    assert_eq!(App::storage_driver(false), StorageDriver::Local);
    assert_eq!(App::local_storage_prefix(), "storage-uploads");
}

#[test]
fn distinct_pids_have_distinct_texts() {
    let pids = [0u128, 1, 256, 1 << 64, u128::MAX, u128::MAX - 1];
    for a in pids {
        for b in pids {
            assert_eq!(users::pid_text(a) == users::pid_text(b), a == b);
        }
    }
}
