//! Partition tables, partitions and partition lists.
//!
//! All three are non-owning views into state held by the probe that
//! produced them, so the models carry no state of their own; each getter
//! translates the outcome of one native read.  Partition UUIDs come back
//! from the native layer as text and are parsed by the `uuid` crate.

use uuid::Uuid;
use vstd::prelude::*;
use vstd::utf8::{decode_utf8, valid_utf8};

use crate::devno::BlkidDevno;
use crate::encode::{bytes_to_string, spec_text_outcome};
use crate::err::{translate_ptr, translate_value, BlkidErr};
use crate::utils::{BlkidBytes, BlkidSectors};

verus! {

#[verifier::external_type_specification]
#[verifier::external_body]
pub struct ExUuid(Uuid);

#[verifier::external_type_specification]
#[verifier::external_body]
pub struct ExUuidError(uuid::Error);

/// Whether a string is UUID text that the parser accepts.
pub uninterp spec fn is_uuid_text(s: Seq<char>) -> bool;

/// Parse UUID text.
///
/// Relies on uuid's `Uuid::parse_str`: whether a string parses depends
/// on its characters alone, and on failure the call reports nothing but
/// the parse error.
#[verifier::external_body]
fn parse_uuid(s: &str) -> (r: Result<Uuid, uuid::Error>)
    ensures
        r is Ok <==> is_uuid_text(s@),
{
    Uuid::parse_str(s)
}

/// A handle for working with a partition table: a non-owning view whose
/// validity is bounded by the probe that produced it.
#[derive(Debug)]
pub struct BlkidParttable {}

impl BlkidParttable {
    /// Wrap a native partition-table reference.
    pub fn new() -> Self {
        BlkidParttable {}
    }

    /// The type of the partition table.  The native read hands back a C
    /// string or null; that outcome, given here as the bytes, is
    /// translated.
    pub fn get_type(&self, outcome: Option<Vec<u8>>) -> (r: Result<String, BlkidErr>)
        ensures
            spec_text_outcome(outcome, r),
    {
        let bytes = translate_ptr(outcome)?;
        bytes_to_string(bytes)
    }

    /// The identifier of the partition table, a UUID or another form of
    /// identifier, so it stays a string.  The native read hands back a C
    /// string or null; that outcome is translated.
    pub fn get_id(&self, outcome: Option<Vec<u8>>) -> (r: Result<String, BlkidErr>)
        ensures
            spec_text_outcome(outcome, r),
    {
        let bytes = translate_ptr(outcome)?;
        bytes_to_string(bytes)
    }

    /// The offset of the partition table in bytes.  The native read
    /// reports a count that is negative on failure.
    pub fn get_offset(&self, raw: i64) -> (r: Result<BlkidBytes, BlkidErr>)
        ensures
            raw < 0 ==> r == Err::<BlkidBytes, BlkidErr>(BlkidErr::NativeFailure),
            raw >= 0 ==> (r matches Ok(b) && b.spec_count() == raw),
    {
        let v = crate::err::translate_value_wide(raw)?;
        Ok(BlkidBytes::new(v))
    }

    /// The parent partition, for nested partition tables; nothing when
    /// there is none.
    pub fn get_parent(&self, outcome: Option<BlkidPartition>) -> (r: Option<BlkidPartition>)
        ensures
            r is Some <==> outcome is Some,
    {
        outcome
    }
}

/// A handle for working with a probed partition: a non-owning view whose
/// validity is bounded by the probe that produced it.
#[derive(Debug)]
pub struct BlkidPartition {}

impl BlkidPartition {
    /// Wrap a native partition reference.
    pub fn new() -> Self {
        BlkidPartition {}
    }

    /// The partition table this partition belongs to.  The native read
    /// hands back a table or null; null is a native failure.
    pub fn get_table(&self, outcome: Option<BlkidParttable>) -> (r: Result<
        BlkidParttable,
        BlkidErr,
    >)
        ensures
            outcome is None ==> r == Err::<BlkidParttable, BlkidErr>(BlkidErr::NativeFailure),
            outcome is Some ==> r is Ok,
    {
        translate_ptr(outcome)
    }

    /// The partition name, or nothing when the table does not carry one.
    /// The native read hands back a C string or null; null means absent
    /// here, and bytes that are not text fail with a conversion error.
    pub fn get_name(&self, outcome: Option<Vec<u8>>) -> (r: Result<Option<String>, BlkidErr>)
        ensures
            outcome is None ==> r == Ok::<Option<String>, BlkidErr>(None),
            outcome matches Some(b) ==> (if valid_utf8(b@) {
                r matches Ok(o) && (o matches Some(s) && s@ == decode_utf8(b@))
            } else {
                r == Err::<Option<String>, BlkidErr>(BlkidErr::InvalidConversion)
            }),
    {
        match outcome {
            None => Ok(None),
            Some(bytes) => {
                let s = bytes_to_string(bytes)?;
                Ok(Some(s))
            },
        }
    }

    /// The partition UUID, or nothing when the table does not support
    /// one.  The native read hands back a C string or null; null means
    /// absent here, and text the UUID parser rejects fails with a
    /// conversion error.
    pub fn get_uuid(&self, outcome: Option<Vec<u8>>) -> (r: Result<Option<Uuid>, BlkidErr>)
        ensures
            outcome is None ==> (r matches Ok(o) && o is None),
            outcome matches Some(b) ==> (if valid_utf8(b@) && is_uuid_text(decode_utf8(b@)) {
                r matches Ok(o) && (o is Some)
            } else {
                r == Err::<Option<Uuid>, BlkidErr>(BlkidErr::InvalidConversion)
            }),
    {
        match outcome {
            None => Ok(None),
            Some(bytes) => {
                let s = bytes_to_string(bytes)?;
                match parse_uuid(s.as_str()) {
                    Ok(u) => Ok(Some(u)),
                    Err(_) => Err(BlkidErr::InvalidConversion),
                }
            },
        }
    }

    /// The partition number.  The native read reports a count that is
    /// negative on failure.
    pub fn get_partno(&self, raw: i32) -> (r: Result<u32, BlkidErr>)
        ensures
            raw < 0 ==> r == Err::<u32, BlkidErr>(BlkidErr::NativeFailure),
            raw >= 0 ==> r == Ok::<u32, BlkidErr>(raw as u32),
    {
        let v = translate_value(raw)?;
        Ok(v as u32)
    }

    /// The start of the partition in sectors, as the native layer
    /// reported it.
    pub fn get_start(&self, raw: i64) -> (r: BlkidSectors)
        ensures
            r.spec_count() == raw,
    {
        BlkidSectors::new(raw)
    }

    /// The size of the partition in sectors, as the native layer
    /// reported it.
    pub fn get_size(&self, raw: i64) -> (r: BlkidSectors)
        ensures
            r.spec_count() == raw,
    {
        BlkidSectors::new(raw)
    }

    /// The numeric partition type, as the native layer reported it.
    pub fn get_type(&self, raw: i32) -> (r: i32)
        ensures
            r == raw,
    {
        raw
    }

    /// The string representation of the partition type.  The native read
    /// hands back a C string or null; that outcome is translated.
    pub fn get_type_string(&self, outcome: Option<Vec<u8>>) -> (r: Result<String, BlkidErr>)
        ensures
            spec_text_outcome(outcome, r),
    {
        let bytes = translate_ptr(outcome)?;
        bytes_to_string(bytes)
    }

    /// The partition flags, untyped because the native library does not
    /// document which constants they use.
    pub fn get_flags(&self, raw: u64) -> (r: u64)
        ensures
            r == raw,
    {
        raw
    }

    /// Whether the partition is logical: the native check reports a
    /// plain integer, zero meaning no.
    pub fn is_logical(&self, raw: i32) -> (r: bool)
        ensures
            r == (raw != 0),
    {
        raw != 0
    }

    /// Whether the partition is an extended partition, as `is_logical`
    /// reads its check.
    pub fn is_extended(&self, raw: i32) -> (r: bool)
        ensures
            r == (raw != 0),
    {
        raw != 0
    }

    /// Whether the partition is a primary partition, as `is_logical`
    /// reads its check.
    pub fn is_primary(&self, raw: i32) -> (r: bool)
        ensures
            r == (raw != 0),
    {
        raw != 0
    }
}

/// A handle for traversing a list of partitions: a non-owning view whose
/// validity is bounded by the probe that produced it.
#[derive(Debug)]
pub struct BlkidPartlist {}

impl BlkidPartlist {
    /// Wrap a native partition-list reference.
    pub fn new() -> Self {
        BlkidPartlist {}
    }

    /// The number of partitions in the list.  The native read reports a
    /// count that is negative on failure.
    pub fn number_of_partitions(&mut self, raw: i32) -> (r: Result<i32, BlkidErr>)
        ensures
            raw < 0 ==> r == Err::<i32, BlkidErr>(BlkidErr::NativeFailure),
            raw >= 0 ==> r == Ok::<i32, BlkidErr>(raw),
    {
        translate_value(raw)
    }

    /// The partition table of the list.  The native read hands back a
    /// table or null; null is a native failure.
    pub fn get_table(&mut self, outcome: Option<BlkidParttable>) -> (r: Result<
        BlkidParttable,
        BlkidErr,
    >)
        ensures
            outcome is None ==> r == Err::<BlkidParttable, BlkidErr>(BlkidErr::NativeFailure),
            outcome is Some ==> r is Ok,
    {
        translate_ptr(outcome)
    }

    /// The partition at the given index of the list.  The native read
    /// hands back a partition or null; null is a native failure.
    pub fn get_partition(&mut self, index: i32, outcome: Option<BlkidPartition>) -> (r: Result<
        BlkidPartition,
        BlkidErr,
    >)
        ensures
            outcome is None ==> r == Err::<BlkidPartition, BlkidErr>(BlkidErr::NativeFailure),
            outcome is Some ==> r is Ok,
    {
        let _ = index;
        translate_ptr(outcome)
    }

    /// The partition with the given number in the partition table,
    /// handling out-of-order tables.  The native read hands back a
    /// partition or null; null is a native failure.
    pub fn get_partition_by_partno(&mut self, num: i32, outcome: Option<BlkidPartition>) -> (r:
        Result<BlkidPartition, BlkidErr>)
        ensures
            outcome is None ==> r == Err::<BlkidPartition, BlkidErr>(BlkidErr::NativeFailure),
            outcome is Some ==> r is Ok,
    {
        let _ = num;
        translate_ptr(outcome)
    }

    /// The partition holding the device with the given device number.
    /// The native read hands back a partition or null; null is a native
    /// failure.
    pub fn get_partition_by_devno(&mut self, dev: &BlkidDevno, outcome: Option<BlkidPartition>)
        -> (r: Result<BlkidPartition, BlkidErr>)
        ensures
            outcome is None ==> r == Err::<BlkidPartition, BlkidErr>(BlkidErr::NativeFailure),
            outcome is Some ==> r is Ok,
    {
        let _ = dev;
        translate_ptr(outcome)
    }
}

} // verus!
