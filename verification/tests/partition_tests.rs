use libblkid_rs::{
    BlkidDevno, BlkidErr, BlkidPartition, BlkidPartlist, BlkidParttable, BlkidProbe,
    BlkidTopology,
};

#[test]
fn test_parttable_get_type() {
    let table = BlkidParttable::new();
    assert_eq!(table.get_type(Some(b"gpt".to_vec())).unwrap(), "gpt");
    assert_eq!(table.get_type(None).unwrap_err(), BlkidErr::NativeFailure);
    assert_eq!(
        table.get_type(Some(vec![0xff, 0xfe])).unwrap_err(),
        BlkidErr::InvalidConversion
    );
}

#[test]
fn test_parttable_get_id() {
    let table = BlkidParttable::new();
    assert_eq!(
        table.get_id(Some(b"0a6cbe35-1234-4321-a1b2-c3d4e5f60789".to_vec())).unwrap(),
        "0a6cbe35-1234-4321-a1b2-c3d4e5f60789"
    );
}

#[test]
fn test_parttable_get_offset() {
    let table = BlkidParttable::new();
    assert_eq!(table.get_offset(512).unwrap().count(), 512);
    assert_eq!(table.get_offset(-1).unwrap_err(), BlkidErr::NativeFailure);
}

#[test]
fn test_parttable_get_parent() {
    let table = BlkidParttable::new();
    assert!(table.get_parent(Some(BlkidPartition::new())).is_some());
    assert!(table.get_parent(None).is_none());
}

#[test]
fn test_partition_get_name() {
    let part = BlkidPartition::new();
    assert_eq!(part.get_name(Some(b"boot".to_vec())).unwrap().unwrap(), "boot");
    assert!(part.get_name(None).unwrap().is_none());
    assert_eq!(
        part.get_name(Some(vec![0xff, 0xfe])).unwrap_err(),
        BlkidErr::InvalidConversion
    );
}

#[test]
fn test_partition_get_uuid() {
    let part = BlkidPartition::new();
    let text = "550e8400-e29b-41d4-a716-446655440000";
    let parsed = part.get_uuid(Some(text.as_bytes().to_vec())).unwrap().unwrap();
    assert_eq!(parsed, uuid::Uuid::parse_str(text).unwrap());
    assert!(part.get_uuid(None).unwrap().is_none());
    assert_eq!(
        part.get_uuid(Some(b"not-a-uuid".to_vec())).unwrap_err(),
        BlkidErr::InvalidConversion
    );
}

#[test]
fn test_partition_numbers() {
    let part = BlkidPartition::new();
    assert_eq!(part.get_partno(3).unwrap(), 3);
    assert_eq!(part.get_partno(-1).unwrap_err(), BlkidErr::NativeFailure);
    assert_eq!(part.get_start(2048).count(), 2048);
    assert_eq!(part.get_size(1024).count(), 1024);
    assert_eq!(part.get_type(0x83), 0x83);
    assert_eq!(part.get_flags(0x80), 0x80);
}

#[test]
fn test_partition_kind_checks() {
    let part = BlkidPartition::new();
    assert!(part.is_logical(1));
    assert!(!part.is_logical(0));
    assert!(part.is_extended(5));
    assert!(!part.is_primary(0));
}

#[test]
fn test_partition_get_type_string() {
    let part = BlkidPartition::new();
    assert_eq!(part.get_type_string(Some(b"linux".to_vec())).unwrap(), "linux");
    assert_eq!(part.get_type_string(None).unwrap_err(), BlkidErr::NativeFailure);
}

#[test]
fn test_partlist() {
    let mut list = BlkidPartlist::new();
    assert_eq!(list.number_of_partitions(4).unwrap(), 4);
    assert_eq!(list.number_of_partitions(-1).unwrap_err(), BlkidErr::NativeFailure);
    assert!(list.get_table(Some(BlkidParttable::new())).is_ok());
    assert_eq!(list.get_table(None).unwrap_err(), BlkidErr::NativeFailure);
    assert!(list.get_partition(0, Some(BlkidPartition::new())).is_ok());
    assert!(list.get_partition_by_partno(1, Some(BlkidPartition::new())).is_ok());
    let devno = BlkidDevno::new(0x0801);
    assert!(list.get_partition_by_devno(&devno, Some(BlkidPartition::new())).is_ok());
    assert_eq!(
        list.get_partition(9, None).unwrap_err(),
        BlkidErr::NativeFailure
    );
}

#[test]
fn test_topology_snapshot() {
    let topo = BlkidTopology::new(0, 512, 4096, 512, 4096);
    assert_eq!(topo.get_alignment_offset(), 0);
    assert_eq!(topo.get_minimum_io_size(), 512);
    assert_eq!(topo.get_optimal_io_size(), 4096);
    assert_eq!(topo.get_logical_sector_size(), 512);
    assert_eq!(topo.get_physical_sector_size(), 4096);
}

#[test]
fn test_probe_get_topology_and_partitions() {
    let mut probe = BlkidProbe::new(true).unwrap();
    let topo = BlkidTopology::new(0, 512, 0, 512, 512);
    assert_eq!(probe.get_topology(Some(topo)).unwrap(), topo);
    assert_eq!(probe.get_topology(None).unwrap_err(), BlkidErr::NativeFailure);
    assert!(probe.get_partitions(Some(BlkidPartlist::new())).is_ok());
    assert_eq!(probe.get_partitions(None).unwrap_err(), BlkidErr::NativeFailure);
}
