use libblkid_rs::{
    get_partition_name, get_superblock_name, is_known_fs_type, is_known_partition_type,
    BlkidErr, BlkidFltr, BlkidFullprobeRet, BlkidProbe, BlkidProbeRet, BlkidProbreqFlag,
    BlkidProbreqFlags, BlkidSafeprobeRet, BlkidSublks, BlkidSublksFlags, BlkidUsageFlag,
    BlkidUsageFlags, LookupOutcome, ProbeState, ValueOutcome,
};

#[test]
fn test_new_probe() {
    assert_eq!(BlkidProbe::new(false).unwrap_err(), BlkidErr::NativeFailure);
    let p = BlkidProbe::new(true).unwrap();
    assert_eq!(p.state(), ProbeState::Fresh);
}

#[test]
fn test_new_from_filename() {
    assert_eq!(
        BlkidProbe::new_from_filename("dev\u{0}ice", None).unwrap_err(),
        BlkidErr::InvalidConversion
    );
    assert_eq!(
        BlkidProbe::new_from_filename("/dev/sda", Some(false)).unwrap_err(),
        BlkidErr::NativeFailure
    );
    let p = BlkidProbe::new_from_filename("/dev/sda", Some(true)).unwrap();
    assert_eq!(p.state(), ProbeState::DeviceBound);
}

#[test]
fn test_probe_lifecycle() {
    let mut p = BlkidProbe::new(true).unwrap();
    assert_eq!(p.state(), ProbeState::Fresh);
    p.set_device(3, 0, 0, 0).unwrap();
    assert_eq!(p.state(), ProbeState::DeviceBound);
    p.enable_superblocks(true, 0).unwrap();
    assert_eq!(p.state(), ProbeState::Configured);
    assert_eq!(p.do_probe(0).unwrap(), BlkidProbeRet::Success);
    assert_eq!(p.state(), ProbeState::Probed);
    assert_eq!(p.do_probe(1).unwrap(), BlkidProbeRet::Done);
    p.reset();
    assert_eq!(p.state(), ProbeState::Fresh);
}

#[test]
fn test_set_device_failure_keeps_state() {
    let mut p = BlkidProbe::new(true).unwrap();
    assert_eq!(p.set_device(3, 0, 0, -1).unwrap_err(), BlkidErr::NativeFailure);
    assert_eq!(p.state(), ProbeState::Fresh);
}

#[test]
fn test_do_probe_translation() {
    let mut p = BlkidProbe::new(true).unwrap();
    assert_eq!(p.do_probe(-1).unwrap_err(), BlkidErr::NativeFailure);
    assert_eq!(p.do_probe(2).unwrap_err(), BlkidErr::InvalidConversion);
    assert_eq!(p.do_probe(0).unwrap(), BlkidProbeRet::Success);
}

#[test]
fn test_do_safeprobe_translation() {
    let mut p = BlkidProbe::new(true).unwrap();
    assert_eq!(p.do_safeprobe(-1).unwrap_err(), BlkidErr::NativeFailure);
    assert_eq!(p.do_safeprobe(-2).unwrap(), BlkidSafeprobeRet::Ambiguous);
    assert_eq!(p.do_safeprobe(1).unwrap(), BlkidSafeprobeRet::Nothing);
    assert_eq!(p.do_safeprobe(0).unwrap(), BlkidSafeprobeRet::Success);
    assert_eq!(p.do_safeprobe(-3).unwrap_err(), BlkidErr::InvalidConversion);
}

#[test]
fn test_do_fullprobe_translation() {
    let mut p = BlkidProbe::new(true).unwrap();
    assert_eq!(p.do_fullprobe(-1).unwrap_err(), BlkidErr::NativeFailure);
    assert_eq!(p.do_fullprobe(0).unwrap(), BlkidFullprobeRet::Success);
    assert_eq!(p.do_fullprobe(1).unwrap(), BlkidFullprobeRet::Nothing);
}

#[test]
fn test_numof_values() {
    let p = BlkidProbe::new(true).unwrap();
    assert_eq!(p.numof_values(3).unwrap(), 3);
    assert_eq!(p.numof_values(-1).unwrap_err(), BlkidErr::NativeFailure);
}

#[test]
fn test_get_value_out_of_bounds_without_native_call() {
    let p = BlkidProbe::new(true).unwrap();
    let err = p.get_value(5, 3, None).unwrap_err();
    match err {
        BlkidErr::Other(msg) => {
            assert_eq!(msg, "num must be between 0 and the last valid index");
        },
        other => panic!("expected a bounds error, got {:?}", other),
    }
    assert!(matches!(p.get_value(3, 3, None).unwrap_err(), BlkidErr::Other(_)));
}

#[test]
fn test_get_value_in_bounds() {
    let p = BlkidProbe::new(true).unwrap();
    let outcome = ValueOutcome {
        status: 0,
        name: Some(b"TYPE".to_vec()),
        data: Some(b"vfat".to_vec()),
    };
    let (name, data) = p.get_value(0, 1, Some(outcome)).unwrap();
    assert_eq!(name, "TYPE");
    assert_eq!(data, "vfat");
    let failed = ValueOutcome { status: -1, name: None, data: None };
    assert_eq!(p.get_value(0, 1, Some(failed)).unwrap_err(), BlkidErr::NativeFailure);
}

#[test]
fn test_lookup_value() {
    let p = BlkidProbe::new(true).unwrap();
    let outcome = LookupOutcome { status: 0, data: Some(b"vfat".to_vec()) };
    assert_eq!(p.lookup_value("TYPE", Some(outcome)).unwrap(), "vfat");
    let failed = LookupOutcome { status: -1, data: None };
    assert_eq!(
        p.lookup_value("TYPE", Some(failed)).unwrap_err(),
        BlkidErr::NativeFailure
    );
    assert_eq!(
        p.lookup_value("TY\u{0}PE", None).unwrap_err(),
        BlkidErr::InvalidConversion
    );
}

#[test]
fn test_has_value() {
    let p = BlkidProbe::new(true).unwrap();
    assert_eq!(p.has_value("TYPE", Some(1)).unwrap(), true);
    assert_eq!(p.has_value("TYPE", Some(0)).unwrap(), false);
    assert_eq!(p.has_value("TY\u{0}PE", None).unwrap_err(), BlkidErr::InvalidConversion);
}

#[test]
fn test_filter_superblock_type() {
    let mut p = BlkidProbe::new_from_filename("/dev/sda", Some(true)).unwrap();
    let names = vec![String::from("vfat"), String::from("ext4")];
    p.filter_superblock_type(BlkidFltr::Onlyin, &names, Some(0)).unwrap();
    assert_eq!(p.state(), ProbeState::Configured);
    let bad = vec![String::from("vf\u{0}at")];
    assert_eq!(
        p.filter_superblock_type(BlkidFltr::Onlyin, &bad, None).unwrap_err(),
        BlkidErr::InvalidConversion
    );
}

#[test]
fn test_filter_superblock_usage() {
    let mut p = BlkidProbe::new_from_filename("/dev/sda", Some(true)).unwrap();
    let usage = BlkidUsageFlags::new(vec![BlkidUsageFlag::Filesystem]);
    p.filter_superblock_usage(BlkidFltr::Onlyin, usage, 0).unwrap();
    assert_eq!(p.state(), ProbeState::Configured);
}

#[test]
fn test_set_superblock_flags() {
    let mut p = BlkidProbe::new_from_filename("/dev/sda", Some(true)).unwrap();
    let flags = BlkidSublksFlags::new(vec![BlkidSublks::Default]);
    p.set_superblock_flags(flags, 0).unwrap();
    assert_eq!(p.state(), ProbeState::Configured);
}

#[test]
fn test_probe_getters() {
    let p = BlkidProbe::new(true).unwrap();
    assert!(p.is_wholedisk(1));
    assert!(!p.is_wholedisk(0));
    assert!(!p.is_wholedisk(-1));
    assert_eq!(p.get_size(4096), 4096);
    assert_eq!(p.get_offset(512), 512);
    assert_eq!(p.get_sector_size(512), 512);
    assert_eq!(p.get_fd(4).unwrap(), 4);
    assert_eq!(p.get_fd(-1).unwrap_err(), BlkidErr::NativeFailure);
    assert_eq!(p.get_devno(2049).as_dev_t(), 2049);
    assert_eq!(p.get_wholedisk_devno(2048).as_dev_t(), 2048);
}

#[test]
fn test_is_known_fs_type() {
    assert_eq!(is_known_fs_type("ext4", Some(1)).unwrap(), true);
    assert_eq!(is_known_fs_type("nope", Some(0)).unwrap(), false);
    assert_eq!(
        is_known_fs_type("ex\u{0}t4", None).unwrap_err(),
        BlkidErr::InvalidConversion
    );
}

#[test]
fn test_is_known_partition_type() {
    assert_eq!(is_known_partition_type("dos", Some(1)).unwrap(), true);
    assert_eq!(is_known_partition_type("nope", Some(0)).unwrap(), false);
    assert_eq!(
        is_known_partition_type("d\u{0}os", None).unwrap_err(),
        BlkidErr::InvalidConversion
    );
}

#[test]
fn test_get_superblock_name() {
    let (name, flags) = get_superblock_name(0, Some(b"ext4".to_vec()), Some(0x0002), 0).unwrap();
    assert_eq!(name.unwrap(), "ext4");
    assert_eq!(flags.unwrap().to_native(), 0x0002);
    assert_eq!(
        get_superblock_name(0, None, None, -1).unwrap_err(),
        BlkidErr::NativeFailure
    );
    assert_eq!(
        get_superblock_name(0, Some(b"ext4".to_vec()), Some(0x0001), 0).unwrap_err(),
        BlkidErr::InvalidConversion
    );
}

#[test]
fn test_get_superblock_name_unrequested_components_are_absent() {
    let (name, flags) = get_superblock_name(0, None, Some(0x0002), 0).unwrap();
    assert!(name.is_none());
    assert_eq!(flags.unwrap().to_native(), 0x0002);
    let (name, flags) = get_superblock_name(0, Some(b"ext4".to_vec()), None, 0).unwrap();
    assert_eq!(name.unwrap(), "ext4");
    assert!(flags.is_none());
}

#[test]
fn test_get_partition_name() {
    assert_eq!(get_partition_name(0, Some(b"dos".to_vec()), 0).unwrap(), "dos");
    assert_eq!(get_partition_name(0, None, -1).unwrap_err(), BlkidErr::NativeFailure);
}

#[test]
fn test_deprecated_filters() {
    let mut p = BlkidProbe::new_from_filename("/dev/sda", Some(true)).unwrap();
    let flags = BlkidProbreqFlags::new(vec![BlkidProbreqFlag::Label]);
    p.filter_usage(flags, BlkidUsageFlags::new(vec![BlkidUsageFlag::Raid]), 0).unwrap();
    assert_eq!(p.state(), ProbeState::Configured);
    let flags = BlkidProbreqFlags::new(vec![BlkidProbreqFlag::Label]);
    let names = vec![String::from("ext4")];
    p.filter_types(flags, &names, Some(0)).unwrap();
    p.invert_filter(0).unwrap();
    p.reset_filter(0).unwrap();
    assert_eq!(p.invert_filter(-1).unwrap_err(), BlkidErr::NativeFailure);
}

#[test]
fn test_fat_probe_session_reports_vfat_type() {
    let mut p = BlkidProbe::new_from_filename("fat.img", Some(true)).unwrap();
    p.enable_superblocks(true, 0).unwrap();
    let flags = BlkidSublksFlags::new(vec![BlkidSublks::Default]);
    p.set_superblock_flags(flags, 0).unwrap();
    assert_eq!(p.do_safeprobe(0).unwrap(), BlkidSafeprobeRet::Success);
    assert_eq!(p.state(), ProbeState::Probed);
    let outcome = LookupOutcome { status: 0, data: Some(b"vfat".to_vec()) };
    assert_eq!(p.lookup_value("TYPE", Some(outcome)).unwrap(), "vfat");
}

#[test]
fn test_misc_probe_ops() {
    let mut p = BlkidProbe::new(true).unwrap();
    p.reset_buffers(0).unwrap();
    p.hide_range(0, 512, 0).unwrap();
    p.do_wipe(true, 0).unwrap();
    p.step_back(0).unwrap();
    assert_eq!(p.step_back(-1).unwrap_err(), BlkidErr::NativeFailure);
    assert_eq!(p.do_wipe(false, 1).unwrap_err(), BlkidErr::UnexpectedPositiveCode);
}
