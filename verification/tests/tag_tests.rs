use libblkid_rs::{parse_tag_string, BlkidErr, BlkidTagIter, TagStep};

#[test]
fn test_parse_tag_string_plain() {
    let (name, value) = parse_tag_string("TYPE=vfat").unwrap();
    assert_eq!(name, "TYPE");
    assert_eq!(value, "vfat");
}

#[test]
fn test_parse_tag_string_empty_value() {
    let (name, value) = parse_tag_string("LABEL=").unwrap();
    assert_eq!(name, "LABEL");
    assert_eq!(value, "");
}

#[test]
fn test_parse_tag_string_double_quotes() {
    let (name, value) = parse_tag_string("LABEL=\"My Disk\"").unwrap();
    assert_eq!(name, "LABEL");
    assert_eq!(value, "My Disk");
}

#[test]
fn test_parse_tag_string_single_quotes() {
    let (name, value) = parse_tag_string("LABEL='My Disk'").unwrap();
    assert_eq!(name, "LABEL");
    assert_eq!(value, "My Disk");
}

#[test]
fn test_parse_tag_string_trailing_after_quote_dropped() {
    let (name, value) = parse_tag_string("LABEL='x'junk").unwrap();
    assert_eq!(name, "LABEL");
    assert_eq!(value, "x");
}

#[test]
fn test_parse_tag_string_no_equals_fails() {
    assert_eq!(
        parse_tag_string("noequals").unwrap_err(),
        BlkidErr::NativeFailure
    );
}

#[test]
fn test_parse_tag_string_unclosed_quote_fails() {
    assert_eq!(
        parse_tag_string("LABEL=\"unclosed").unwrap_err(),
        BlkidErr::NativeFailure
    );
}

#[test]
fn test_parse_tag_string_embedded_nul_fails() {
    assert_eq!(
        parse_tag_string("TY\u{0}PE=vfat").unwrap_err(),
        BlkidErr::InvalidConversion
    );
}

#[test]
fn test_parse_tag_string_value_keeps_later_equals() {
    let (name, value) = parse_tag_string("A=B=C").unwrap();
    assert_eq!(name, "A");
    assert_eq!(value, "B=C");
}

fn step(status: i32, t: &[u8], v: &[u8]) -> TagStep {
    TagStep {
        status,
        type_bytes: Some(t.to_vec()),
        value_bytes: Some(v.to_vec()),
    }
}

fn end_step() -> TagStep {
    TagStep { status: -1, type_bytes: None, value_bytes: None }
}

fn drain(steps: Vec<TagStep>) -> Vec<(String, String)> {
    let mut iter = BlkidTagIter::new();
    let mut items = Vec::new();
    for s in steps {
        match iter.next(s) {
            Some(item) => items.push(item),
            None => break,
        }
    }
    items
}

#[test]
fn test_tag_iter_yields_until_exhaustion() {
    let items = drain(vec![
        step(0, b"TYPE", b"vfat"),
        step(0, b"UUID", b"0000-0001"),
        end_step(),
    ]);
    assert_eq!(
        items,
        vec![
            (String::from("TYPE"), String::from("vfat")),
            (String::from("UUID"), String::from("0000-0001")),
        ]
    );
}

#[test]
fn test_tag_iter_fresh_iterator_reproduces_sequence() {
    let make = || vec![step(0, b"TYPE", b"ext4"), step(0, b"LABEL", b"root"), end_step()];
    let first = drain(make());
    let second = drain(make());
    assert_eq!(first, second);
    assert_eq!(first.len(), 2);
}

#[test]
fn test_tag_iter_empty_collection() {
    let items = drain(vec![end_step()]);
    assert!(items.is_empty());
}

#[test]
fn test_tag_iter_stops_on_undecodable_value() {
    let items = drain(vec![
        step(0, b"TYPE", b"vfat"),
        step(0, b"BAD", &[0xff, 0xfe]),
        step(0, b"LABEL", b"root"),
    ]);
    assert_eq!(items, vec![(String::from("TYPE"), String::from("vfat"))]);
}
