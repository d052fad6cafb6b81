use libblkid_rs::{
    translate_ptr, translate_status, translate_value, translate_value_wide, BlkidErr,
};

#[test]
fn test_translate_status() {
    assert_eq!(translate_status(0), Ok(()));
    assert_eq!(translate_status(-1), Err(BlkidErr::NativeFailure));
    assert_eq!(translate_status(-17), Err(BlkidErr::NativeFailure));
    assert_eq!(translate_status(1), Err(BlkidErr::UnexpectedPositiveCode));
    assert_eq!(translate_status(42), Err(BlkidErr::UnexpectedPositiveCode));
}

#[test]
fn test_translate_ptr() {
    assert_eq!(translate_ptr(Some(7u32)), Ok(7u32));
    assert_eq!(translate_ptr::<u32>(None), Err(BlkidErr::NativeFailure));
}

#[test]
fn test_translate_value() {
    assert_eq!(translate_value(0), Ok(0));
    assert_eq!(translate_value(7), Ok(7));
    assert_eq!(translate_value(-5), Err(BlkidErr::NativeFailure));
}

#[test]
fn test_translate_value_wide() {
    assert_eq!(translate_value_wide(1 << 40), Ok(1 << 40));
    assert_eq!(translate_value_wide(-1), Err(BlkidErr::NativeFailure));
}

#[test]
fn test_error_messages() {
    assert_eq!(
        BlkidErr::NativeFailure.message(),
        "libblkid returned an error code indicating an operation could not be completed successfully"
    );
    assert_eq!(
        BlkidErr::UnexpectedPositiveCode.message(),
        "Positive return code found when <= 0 was expected"
    );
    assert_eq!(
        BlkidErr::InvalidConversion.message(),
        "The requested conversion was unsuccessful"
    );
    assert_eq!(BlkidErr::IOFailure(2).message(), "An IO error occurred");
    assert_eq!(
        BlkidErr::Other(String::from("index out of range")).message(),
        "index out of range"
    );
}
