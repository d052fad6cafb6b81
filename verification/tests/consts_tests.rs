use libblkid_rs::{
    BlkidDevFlag, BlkidDevFlags, BlkidErr, BlkidFltr, BlkidFullprobeRet, BlkidProbeRet,
    BlkidProbreqFlag, BlkidProbreqFlags, BlkidSafeprobeRet, BlkidSublks, BlkidSublksFlags,
    BlkidUsageFlag, BlkidUsageFlags,
};

#[test]
fn test_dev_flag_constants() {
    assert_eq!(BlkidDevFlag::Find.to_native(), 0x0000);
    assert_eq!(BlkidDevFlag::Create.to_native(), 0x0001);
    assert_eq!(BlkidDevFlag::Verify.to_native(), 0x0002);
    assert_eq!(BlkidDevFlag::Normal.to_native(), 0x0003);
}

#[test]
fn test_dev_flag_round_trip() {
    for f in [
        BlkidDevFlag::Find,
        BlkidDevFlag::Create,
        BlkidDevFlag::Verify,
        BlkidDevFlag::Normal,
    ] {
        assert_eq!(BlkidDevFlag::try_from_native(f.to_native()).unwrap(), f);
    }
    assert_eq!(
        BlkidDevFlag::try_from_native(0x0004).unwrap_err(),
        BlkidErr::InvalidConversion
    );
}

#[test]
fn test_dev_flags_set_round_trip() {
    let s = BlkidDevFlags::try_from_native(0x0003).unwrap();
    assert_eq!(s.to_native(), 0x0003);
    let t = BlkidDevFlags::try_from_native(s.to_native()).unwrap();
    assert_eq!(t, s);
    assert_eq!(
        BlkidDevFlags::try_from_native(0x0004).unwrap_err(),
        BlkidErr::InvalidConversion
    );
}

#[test]
fn test_dev_flags_new_and_empty() {
    assert_eq!(BlkidDevFlags::empty().to_native(), 0);
    let s = BlkidDevFlags::new(vec![BlkidDevFlag::Create, BlkidDevFlag::Verify]);
    assert_eq!(s.to_native(), 0x0003);
}

#[test]
fn test_usage_flag_round_trip() {
    for f in [
        BlkidUsageFlag::Filesystem,
        BlkidUsageFlag::Raid,
        BlkidUsageFlag::Crypto,
        BlkidUsageFlag::Other,
    ] {
        assert_eq!(BlkidUsageFlag::try_from_native(f.to_native()).unwrap(), f);
    }
    assert_eq!(
        BlkidUsageFlag::try_from_native(0x0020).unwrap_err(),
        BlkidErr::InvalidConversion
    );
}

#[test]
fn test_usage_flags_set() {
    let s = BlkidUsageFlags::new(vec![BlkidUsageFlag::Filesystem, BlkidUsageFlag::Crypto]);
    assert_eq!(s.to_native(), 0x000a);
    let t = BlkidUsageFlags::try_from_native(0x000a).unwrap();
    assert_eq!(t, s);
    assert_eq!(
        BlkidUsageFlags::try_from_native(0x0001).unwrap_err(),
        BlkidErr::InvalidConversion
    );
}

#[test]
fn test_sublks_default_is_label_uuid_type_sectype() {
    let s = BlkidSublksFlags::new(vec![
        BlkidSublks::Label,
        BlkidSublks::Uuid,
        BlkidSublks::Type,
        BlkidSublks::Sectype,
    ]);
    assert_eq!(s.to_native(), BlkidSublks::Default.to_native());
    assert_eq!(s.to_native(), 0x006a);
}

#[test]
fn test_sublks_flags_round_trip() {
    let v = 0x02aa;
    let s = BlkidSublksFlags::try_from_native(v).unwrap();
    assert_eq!(s.to_native(), v);
    let t = BlkidSublksFlags::try_from_native(s.to_native()).unwrap();
    assert_eq!(t, s);
    assert_eq!(
        BlkidSublksFlags::try_from_native(0x0800).unwrap_err(),
        BlkidErr::InvalidConversion
    );
    assert_eq!(
        BlkidSublksFlags::try_from_native(-1).unwrap_err(),
        BlkidErr::InvalidConversion
    );
}

#[test]
fn test_sublks_round_trip_each() {
    for f in [
        BlkidSublks::Label,
        BlkidSublks::Labelraw,
        BlkidSublks::Uuid,
        BlkidSublks::Uuidraw,
        BlkidSublks::Type,
        BlkidSublks::Sectype,
        BlkidSublks::Usage,
        BlkidSublks::Version,
        BlkidSublks::Magic,
        BlkidSublks::Badcsum,
        BlkidSublks::Default,
    ] {
        assert_eq!(BlkidSublks::try_from_native(f.to_native()).unwrap(), f);
    }
}

#[test]
fn test_fltr_round_trip() {
    assert_eq!(BlkidFltr::try_from_native(1).unwrap(), BlkidFltr::Notin);
    assert_eq!(BlkidFltr::try_from_native(2).unwrap(), BlkidFltr::Onlyin);
    assert_eq!(BlkidFltr::try_from_native(3).unwrap_err(), BlkidErr::InvalidConversion);
}

#[test]
fn test_probe_ret_round_trip() {
    assert_eq!(BlkidProbeRet::try_from_native(0).unwrap(), BlkidProbeRet::Success);
    assert_eq!(BlkidProbeRet::try_from_native(1).unwrap(), BlkidProbeRet::Done);
    assert_eq!(
        BlkidProbeRet::try_from_native(2).unwrap_err(),
        BlkidErr::InvalidConversion
    );
}

#[test]
fn test_safeprobe_ret_round_trip() {
    assert_eq!(
        BlkidSafeprobeRet::try_from_native(0).unwrap(),
        BlkidSafeprobeRet::Success
    );
    assert_eq!(
        BlkidSafeprobeRet::try_from_native(1).unwrap(),
        BlkidSafeprobeRet::Nothing
    );
    assert_eq!(
        BlkidSafeprobeRet::try_from_native(-2).unwrap(),
        BlkidSafeprobeRet::Ambiguous
    );
    assert_eq!(
        BlkidSafeprobeRet::try_from_native(-3).unwrap_err(),
        BlkidErr::InvalidConversion
    );
}

#[test]
fn test_fullprobe_ret_round_trip() {
    assert_eq!(
        BlkidFullprobeRet::try_from_native(0).unwrap(),
        BlkidFullprobeRet::Success
    );
    assert_eq!(
        BlkidFullprobeRet::try_from_native(1).unwrap(),
        BlkidFullprobeRet::Nothing
    );
}

#[test]
fn test_probreq_flags_set() {
    let s = BlkidProbreqFlags::new(vec![BlkidProbreqFlag::Label, BlkidProbreqFlag::Uuid]);
    assert_eq!(s.to_native(), 0x000a);
    let t = BlkidProbreqFlags::try_from_native(s.to_native()).unwrap();
    assert_eq!(t, s);
    assert_eq!(
        BlkidProbreqFlags::try_from_native(0x0200).unwrap_err(),
        BlkidErr::InvalidConversion
    );
}
