use libblkid_rs::{
    evaluate_spec, evaluate_tag, parse_version_string, send_uevent, BlkidBytes, BlkidErr,
    BlkidSectors,
};

#[test]
fn test_sectors_to_bytes() {
    let sectors = BlkidSectors::new(8);
    assert_eq!(sectors.count(), 8);
    assert_eq!(sectors.bytes().count(), 4096);
}

#[test]
fn test_bytes_to_sectors_exact() {
    let bytes = BlkidBytes::new(1024);
    assert_eq!(bytes.sectors().unwrap().count(), 2);
}

#[test]
fn test_bytes_to_sectors_indivisible_fails() {
    let bytes = BlkidBytes::new(1000);
    assert_eq!(bytes.sectors().unwrap_err(), BlkidErr::InvalidConversion);
}

#[test]
fn test_bytes_to_sectors_negative_counts() {
    let bytes = BlkidBytes::new(-1024);
    assert_eq!(bytes.sectors().unwrap().count(), -2);
    let bytes = BlkidBytes::new(-1000);
    assert_eq!(bytes.sectors().unwrap_err(), BlkidErr::InvalidConversion);
}

#[test]
fn test_send_uevent() {
    assert_eq!(send_uevent("/dev/sda", "change", Some(0)), Ok(()));
    assert_eq!(
        send_uevent("/dev/sda", "change", Some(-1)).unwrap_err(),
        BlkidErr::NativeFailure
    );
    assert_eq!(
        send_uevent("/dev/\u{0}sda", "change", None).unwrap_err(),
        BlkidErr::InvalidConversion
    );
}

#[test]
fn test_evaluate_tag() {
    let path = evaluate_tag("UUID", "0000-0001", Some(Some(b"/dev/sda1".to_vec()))).unwrap();
    assert_eq!(path, "/dev/sda1");
    assert_eq!(
        evaluate_tag("UUID", "0000-0001", Some(None)).unwrap_err(),
        BlkidErr::NativeFailure
    );
    assert_eq!(
        evaluate_tag("UU\u{0}ID", "0000-0001", None).unwrap_err(),
        BlkidErr::InvalidConversion
    );
}

#[test]
fn test_evaluate_spec() {
    let path = evaluate_spec("LABEL=root", Some(Some(b"/dev/dm-0".to_vec()))).unwrap();
    assert_eq!(path, "/dev/dm-0");
    assert_eq!(
        evaluate_spec("LABEL=root", Some(None)).unwrap_err(),
        BlkidErr::NativeFailure
    );
    assert_eq!(
        evaluate_spec("LAB\u{0}EL", None).unwrap_err(),
        BlkidErr::InvalidConversion
    );
}

#[test]
fn test_parse_version_string() {
    assert_eq!(parse_version_string("2.33.2").unwrap(), 2332);
    assert_eq!(parse_version_string("2.17").unwrap(), 217);
}

#[test]
fn test_parse_version_string_stops_at_other_characters() {
    assert_eq!(parse_version_string("2.33.2-rc1").unwrap(), 2332);
    assert_eq!(parse_version_string("x2.33").unwrap(), 0);
}

#[test]
fn test_parse_version_string_empty() {
    assert_eq!(parse_version_string("").unwrap(), 0);
}

#[test]
fn test_parse_version_string_embedded_nul_fails() {
    assert_eq!(
        parse_version_string("2.\u{0}33").unwrap_err(),
        BlkidErr::InvalidConversion
    );
}

#[test]
fn test_parse_version_string_overflow_fails() {
    assert_eq!(
        parse_version_string("99999999999").unwrap_err(),
        BlkidErr::InvalidConversion
    );
}
