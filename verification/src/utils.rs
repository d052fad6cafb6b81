//! Unit-carrying counts and tag evaluation entry points.

use vstd::prelude::*;
use vstd::string::*;

use crate::encode::{bytes_to_string, nul_free, spec_text_outcome};
use crate::err::{translate_ptr, translate_status, BlkidErr};

verus! {

/// Bytes per disk sector, as the native library assumes.
pub const SECTOR_SIZE: i64 = 512;

/// A count with units of sectors.
#[derive(Clone, Copy, Debug, PartialEq, Eq, Structural)]
pub struct BlkidSectors {
    count: i64,
}

/// A count with units of bytes.
#[derive(Clone, Copy, Debug, PartialEq, Eq, Structural)]
pub struct BlkidBytes {
    count: i64,
}

impl BlkidSectors {
    /// The number of sectors held.
    pub closed spec fn spec_count(self) -> i64 {
        self.count
    }

    /// Wrap a native sector count.
    pub fn new(num: i64) -> (r: Self)
        ensures
            r.spec_count() == num,
    {
        BlkidSectors { count: num }
    }

    /// The number of sectors held.
    pub fn count(&self) -> (r: i64)
        ensures
            r == self.spec_count(),
    {
        self.count
    }

    /// The number of bytes these sectors span.
    pub fn bytes(&self) -> (r: BlkidBytes)
        requires
            i64::MIN <= self.spec_count() * SECTOR_SIZE <= i64::MAX,
        ensures
            r.spec_count() == self.spec_count() * SECTOR_SIZE,
    {
        BlkidBytes { count: self.count * SECTOR_SIZE }
    }
}

impl BlkidBytes {
    /// The number of bytes held.
    pub closed spec fn spec_count(self) -> i64 {
        self.count
    }

    /// Wrap a native byte count.
    pub fn new(num: i64) -> (r: Self)
        ensures
            r.spec_count() == num,
    {
        BlkidBytes { count: num }
    }

    /// The number of bytes held.
    pub fn count(&self) -> (r: i64)
        ensures
            r == self.spec_count(),
    {
        self.count
    }

    /// The number of whole sectors these bytes span, or a conversion error
    /// when the byte count is not divisible by the sector size; the
    /// conversion never rounds.
    pub fn sectors(&self) -> (r: Result<BlkidSectors, BlkidErr>)
        ensures
            self.spec_count() % SECTOR_SIZE != 0 ==> r == Err::<BlkidSectors, BlkidErr>(
                BlkidErr::InvalidConversion,
            ),
            self.spec_count() % SECTOR_SIZE == 0 ==> (r matches Ok(s) && s.spec_count()
                == self.spec_count() / SECTOR_SIZE && s.spec_count() * SECTOR_SIZE
                == self.spec_count()),
    {
        if self.count % SECTOR_SIZE != 0 {
            Err(BlkidErr::InvalidConversion)
        } else {
            Ok(BlkidSectors { count: self.count / SECTOR_SIZE })
        }
    }
}

/// Send a uevent to the device at the given path.  The native call does
/// the sending; its status code is translated here.  A path or action
/// holding an embedded null byte fails with a conversion error before any
/// native call can be issued.
pub fn send_uevent(dev: &str, action: &str, status: Option<i32>) -> (r: Result<(), BlkidErr>)
    requires
        nul_free(dev.spec_bytes()) && nul_free(action.spec_bytes()) ==> status is Some,
    ensures
        !nul_free(dev.spec_bytes()) || !nul_free(action.spec_bytes()) ==> r == Err::<
            (),
            BlkidErr,
        >(BlkidErr::InvalidConversion),
        nul_free(dev.spec_bytes()) && nul_free(action.spec_bytes()) ==> (match status {
            Some(c) => (if c == 0 {
                r == Ok::<(), BlkidErr>(())
            } else if c < 0 {
                r == Err::<(), BlkidErr>(BlkidErr::NativeFailure)
            } else {
                r == Err::<(), BlkidErr>(BlkidErr::UnexpectedPositiveCode)
            }),
            None => true,
        }),
{
    let dev_checked = crate::encode::to_native_text(dev);
    if dev_checked.is_err() {
        return Err(BlkidErr::InvalidConversion);
    }
    let action_checked = crate::encode::to_native_text(action);
    if action_checked.is_err() {
        return Err(BlkidErr::InvalidConversion);
    }
    match status {
        Some(c) => translate_status(c),
        None => Err(BlkidErr::InvalidConversion),
    }
}

/// Find the path of the device matching the tag `token=value`.  The
/// native lookup does the search, consulting a cache when the caller
/// supplied one; its outcome, null or the path's bytes, is translated
/// here.  A token or value holding an embedded null byte fails with a
/// conversion error before any native call can be issued.
pub fn evaluate_tag(token: &str, value: &str, outcome: Option<Option<Vec<u8>>>) -> (r: Result<
    String,
    BlkidErr,
>)
    requires
        nul_free(token.spec_bytes()) && nul_free(value.spec_bytes()) ==> outcome is Some,
    ensures
        !nul_free(token.spec_bytes()) || !nul_free(value.spec_bytes()) ==> r == Err::<
            String,
            BlkidErr,
        >(BlkidErr::InvalidConversion),
        nul_free(token.spec_bytes()) && nul_free(value.spec_bytes()) ==> (match outcome {
            Some(o) => spec_text_outcome(o, r),
            None => true,
        }),
{
    let token_checked = crate::encode::to_native_text(token);
    if token_checked.is_err() {
        return Err(BlkidErr::InvalidConversion);
    }
    let value_checked = crate::encode::to_native_text(value);
    if value_checked.is_err() {
        return Err(BlkidErr::InvalidConversion);
    }
    match outcome {
        Some(o) => {
            let bytes = translate_ptr(o)?;
            bytes_to_string(bytes)
        },
        None => Err(BlkidErr::InvalidConversion),
    }
}

/// Find the path of a device matching an unparsed tag or the path of a
/// device-mapper node.  The native lookup does the search; its outcome is
/// translated here.  A specification string holding an embedded null byte
/// fails with a conversion error before any native call can be issued.
pub fn evaluate_spec(tag_or_dm_path: &str, outcome: Option<Option<Vec<u8>>>) -> (r: Result<
    String,
    BlkidErr,
>)
    requires
        nul_free(tag_or_dm_path.spec_bytes()) ==> outcome is Some,
    ensures
        !nul_free(tag_or_dm_path.spec_bytes()) ==> r == Err::<String, BlkidErr>(
            BlkidErr::InvalidConversion,
        ),
        nul_free(tag_or_dm_path.spec_bytes()) ==> (match outcome {
            Some(o) => spec_text_outcome(o, r),
            None => true,
        }),
{
    let checked = crate::encode::to_native_text(tag_or_dm_path);
    if checked.is_err() {
        return Err(BlkidErr::InvalidConversion);
    }
    match outcome {
        Some(o) => {
            let bytes = translate_ptr(o)?;
            bytes_to_string(bytes)
        },
        None => Err(BlkidErr::InvalidConversion),
    }
}

} // verus!
