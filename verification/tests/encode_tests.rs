use libblkid_rs::{encode_string, safe_string, to_native_text, BlkidErr};

#[test]
fn test_encode_string() {
    let encoded_string = encode_string("\\test string").unwrap();
    assert_eq!(encoded_string, "\\x5ctest\\x20string");
}

#[test]
fn test_safe_string() {
    let safe_string = safe_string("test string").unwrap();
    assert_eq!(safe_string, "test_string");
}

#[test]
fn test_encode_string_keeps_whitelisted() {
    assert_eq!(encode_string("abc019XYZ#+-.:=@_").unwrap(), "abc019XYZ#+-.:=@_");
}

#[test]
fn test_encode_string_escapes_control() {
    assert_eq!(encode_string("a\tb").unwrap(), "a\\x09b");
    assert_eq!(encode_string("a/b").unwrap(), "a\\x2fb");
}

#[test]
fn test_encode_string_passes_non_ascii() {
    assert_eq!(encode_string("caf\u{e9}").unwrap(), "caf\u{e9}");
}

#[test]
fn test_encode_string_empty_is_error() {
    assert_eq!(encode_string("").unwrap_err(), BlkidErr::InvalidConversion);
}

#[test]
fn test_encode_string_embedded_nul_is_error() {
    assert_eq!(encode_string("a\u{0}b").unwrap_err(), BlkidErr::InvalidConversion);
}

#[test]
fn test_safe_string_keeps_safe_chars() {
    assert_eq!(safe_string("ab.C_9-x").unwrap(), "ab.C_9-x");
}

#[test]
fn test_safe_string_multibyte_becomes_underscores() {
    assert_eq!(safe_string("caf\u{e9}").unwrap(), "caf__");
}

#[test]
fn test_safe_string_empty_is_error() {
    assert_eq!(safe_string("").unwrap_err(), BlkidErr::InvalidConversion);
}

#[test]
fn test_safe_string_embedded_nul_is_error() {
    assert_eq!(safe_string("a\u{0}b").unwrap_err(), BlkidErr::InvalidConversion);
}

#[test]
fn test_to_native_text_valid() {
    assert_eq!(to_native_text("hello").unwrap(), b"hello".to_vec());
}

#[test]
fn test_to_native_text_embedded_nul_is_error() {
    assert_eq!(to_native_text("he\u{0}llo").unwrap_err(), BlkidErr::InvalidConversion);
}
