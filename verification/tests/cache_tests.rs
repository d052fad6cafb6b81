use libblkid_rs::{
    BlkidCache, BlkidDev, BlkidDevFlag, BlkidDevFlags, BlkidErr, CacheOwnership, TagQuery,
};

#[test]
fn test_get_cache() {
    let cache = BlkidCache::get_cache(None, Some(0)).unwrap();
    assert!(cache.must_free_on_drop());
    let cache = BlkidCache::get_cache(Some("/run/blkid/blkid.tab"), Some(0)).unwrap();
    assert!(cache.must_free_on_drop());
    assert_eq!(
        BlkidCache::get_cache(None, Some(-1)).unwrap_err(),
        BlkidErr::NativeFailure
    );
    assert_eq!(
        BlkidCache::get_cache(Some("bad\u{0}path"), None).unwrap_err(),
        BlkidErr::InvalidConversion
    );
}

#[test]
fn test_put_cache_releases_ownership() {
    let mut cache = BlkidCache::get_cache(None, Some(0)).unwrap();
    assert!(cache.must_free_on_drop());
    cache.put_cache();
    assert!(!cache.must_free_on_drop());
}

#[test]
fn test_borrowed_cache_is_never_freed() {
    let cache = BlkidCache::borrow_existing();
    assert!(!cache.must_free_on_drop());
}

#[test]
fn test_ownership_variants() {
    assert_ne!(CacheOwnership::Owned, CacheOwnership::Borrowed);
    assert_ne!(CacheOwnership::Owned, CacheOwnership::Released);
}

#[test]
fn test_probe_all() {
    let mut cache = BlkidCache::get_cache(None, Some(0)).unwrap();
    cache.probe_all(0).unwrap();
    cache.probe_all_new(0).unwrap();
    cache.probe_all_removable(0).unwrap();
    assert_eq!(cache.probe_all(-1).unwrap_err(), BlkidErr::NativeFailure);
    assert_eq!(cache.probe_all_new(2).unwrap_err(), BlkidErr::UnexpectedPositiveCode);
}

#[test]
fn test_get_dev_with_create_flag_yields_usable_entry() {
    let cache = BlkidCache::get_cache(None, Some(0)).unwrap();
    let flags = BlkidDevFlags::new(vec![BlkidDevFlag::Create]);
    let dev = cache.get_dev("/dev/nonexistent", flags, Some(Some(BlkidDev::new())));
    assert!(dev.is_ok());
    let flags = BlkidDevFlags::new(vec![BlkidDevFlag::Find]);
    assert_eq!(
        cache.get_dev("/dev/nonexistent", flags, Some(None)).unwrap_err(),
        BlkidErr::NativeFailure
    );
    let flags = BlkidDevFlags::new(vec![BlkidDevFlag::Create]);
    assert_eq!(
        cache.get_dev("bad\u{0}name", flags, None).unwrap_err(),
        BlkidErr::InvalidConversion
    );
}

#[test]
fn test_get_tag_value() {
    let cache = BlkidCache::get_cache(None, Some(0)).unwrap();
    let value = cache
        .get_tag_value("TYPE", "/dev/sda1", Some(Some(b"vfat".to_vec())))
        .unwrap();
    assert_eq!(value, "vfat");
    assert_eq!(
        cache.get_tag_value("TYPE", "/dev/sda1", Some(None)).unwrap_err(),
        BlkidErr::NativeFailure
    );
    assert_eq!(
        cache.get_tag_value("TY\u{0}PE", "/dev/sda1", None).unwrap_err(),
        BlkidErr::InvalidConversion
    );
}

#[test]
fn test_get_devname_token() {
    let cache = BlkidCache::get_cache(None, Some(0)).unwrap();
    let name = cache
        .get_devname(TagQuery::Token("TYPE=vfat"), Some(Some(b"/dev/sda1".to_vec())))
        .unwrap();
    assert_eq!(name, "/dev/sda1");
    let err = cache.get_devname(TagQuery::Token("noequals"), None).unwrap_err();
    match err {
        BlkidErr::Other(msg) => {
            assert_eq!(msg, "Token input requires the format NAME=value");
        },
        other => panic!("expected a format error, got {:?}", other),
    }
}

#[test]
fn test_get_devname_pair() {
    let cache = BlkidCache::get_cache(None, Some(0)).unwrap();
    let name = cache
        .get_devname(
            TagQuery::Pair("TYPE", "vfat"),
            Some(Some(b"/dev/sda1".to_vec())),
        )
        .unwrap();
    assert_eq!(name, "/dev/sda1");
    assert_eq!(
        cache.get_devname(TagQuery::Pair("TY\u{0}PE", "vfat"), None).unwrap_err(),
        BlkidErr::InvalidConversion
    );
}

#[test]
fn test_find_dev_with_tag() {
    let cache = BlkidCache::get_cache(None, Some(0)).unwrap();
    assert!(cache
        .find_dev_with_tag("TYPE", "vfat", Some(Some(BlkidDev::new())))
        .is_ok());
    assert_eq!(
        cache.find_dev_with_tag("TYPE", "vfat", Some(None)).unwrap_err(),
        BlkidErr::NativeFailure
    );
    assert_eq!(
        cache.find_dev_with_tag("TY\u{0}PE", "vfat", None).unwrap_err(),
        BlkidErr::InvalidConversion
    );
}

#[test]
fn test_verify() {
    let mut cache = BlkidCache::get_cache(None, Some(0)).unwrap();
    assert!(cache.verify(BlkidDev::new(), Some(BlkidDev::new())).is_some());
    assert!(cache.verify(BlkidDev::new(), None).is_none());
}

#[test]
fn test_gc_cache_and_iter() {
    let mut cache = BlkidCache::get_cache(None, Some(0)).unwrap();
    cache.gc_cache();
    assert!(cache.must_free_on_drop());
    let _iter = cache.iter();
}
