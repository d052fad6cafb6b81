use libblkid_rs::{BlkidDev, BlkidDevIter, BlkidDevno, BlkidErr, BlkidSize, DevStep};

#[test]
fn test_devno_from_device_numbers() {
    let devno = BlkidDevno::from_device_numbers(8, 1);
    assert_eq!(devno.as_dev_t(), 0x0801);
    assert_eq!(devno.major(), 8);
    assert_eq!(devno.minor(), 1);
}

#[test]
fn test_devno_round_trip_large_numbers() {
    let devno = BlkidDevno::from_device_numbers(0x000f_2345, 0x00ab_cdef);
    assert_eq!(devno.major(), 0x000f_2345);
    assert_eq!(devno.minor(), 0x00ab_cdef);
}

#[test]
fn test_devno_major_minor_of_packed_value() {
    let devno = BlkidDevno::new(0x0801);
    assert_eq!(devno.major(), 8);
    assert_eq!(devno.minor(), 1);
}

#[test]
fn test_devno_to_devname() {
    let devno = BlkidDevno::new(0x0801);
    assert_eq!(devno.to_devname(Some(b"/dev/sda1".to_vec())).unwrap(), "/dev/sda1");
    assert_eq!(devno.to_devname(None).unwrap_err(), BlkidErr::NativeFailure);
}

#[test]
fn test_devno_to_wholedisk() {
    let devno = BlkidDevno::new(0x0801);
    let (name, whole) = devno.to_wholedisk(0, Some(b"sda".to_vec()), 0x0800).unwrap();
    assert_eq!(name, "sda");
    assert_eq!(whole.as_dev_t(), 0x0800);
    assert_eq!(
        devno.to_wholedisk(-1, None, 0).unwrap_err(),
        BlkidErr::NativeFailure
    );
}

#[test]
fn test_blkid_size() {
    assert_eq!(BlkidSize::new(4096).value(), 4096);
}

#[test]
fn test_dev_devname() {
    let dev = BlkidDev::new();
    assert_eq!(dev.devname(Some(b"/dev/sda".to_vec())).unwrap(), "/dev/sda");
    assert_eq!(dev.devname(None).unwrap_err(), BlkidErr::NativeFailure);
}

#[test]
fn test_dev_has_tag() {
    let dev = BlkidDev::new();
    assert_eq!(dev.has_tag("TYPE", "vfat", Some(1)).unwrap(), true);
    assert_eq!(dev.has_tag("TYPE", "vfat", Some(0)).unwrap(), false);
    assert_eq!(
        dev.has_tag("TY\u{0}PE", "vfat", None).unwrap_err(),
        BlkidErr::InvalidConversion
    );
}

fn drain_count(statuses: Vec<i32>) -> usize {
    let mut iter = BlkidDevIter::new();
    let mut count = 0;
    for status in statuses {
        let step = DevStep {
            status,
            found: if status >= 0 { Some(BlkidDev::new()) } else { None },
        };
        match iter.next(step) {
            Some(_) => count += 1,
            None => break,
        }
    }
    count
}

#[test]
fn test_dev_iter_counts_until_exhaustion() {
    assert_eq!(drain_count(vec![0, 0, 0, -1]), 3);
    assert_eq!(drain_count(vec![-1]), 0);
}

#[test]
fn test_dev_iter_fresh_iterator_reproduces_count() {
    assert_eq!(drain_count(vec![0, 0, -1]), drain_count(vec![0, 0, -1]));
}

#[test]
fn test_dev_iter_search() {
    let iter = BlkidDevIter::new();
    let iter = iter.search("TYPE", "vfat", Some(0)).unwrap();
    assert!(iter.search("TYPE", "vfat", Some(-1)).is_err());
    let iter = BlkidDevIter::new();
    assert_eq!(
        iter.search("TY\u{0}PE", "vfat", None).err().unwrap(),
        BlkidErr::InvalidConversion
    );
}
