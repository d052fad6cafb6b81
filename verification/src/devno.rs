//! Device numbers and their major/minor decomposition.
//!
//! A device number packs a major and a minor number into one 64-bit value
//! using the layout of the host C library, which is stated here bit for
//! bit and proved to round-trip.  Turning a device number back into a
//! device name is a native lookup; only its outcome is translated here.

use vstd::prelude::*;
use vstd::utf8::{decode_utf8, valid_utf8};

use crate::encode::bytes_to_string;
use crate::err::{translate_ptr, translate_status, BlkidErr};

verus! {

/// Type alias for a device major number.
#[allow(non_camel_case_types)]
pub type maj_t = u32;

/// Type alias for a device minor number.
#[allow(non_camel_case_types)]
pub type min_t = u32;

/// The major number packed into a device number: its low twelve bits sit
/// in bits eight and up, the rest in bits thirty-two and up.
pub open spec fn spec_major(dev: u64) -> u32 {
    (((dev & 0x0000_0000_000f_ff00) >> 8) | ((dev & 0xffff_f000_0000_0000) >> 32)) as u32
}

/// The minor number packed into a device number: its low eight bits sit
/// at the bottom, the rest in bits twelve and up.
pub open spec fn spec_minor(dev: u64) -> u32 {
    ((dev & 0x0000_0000_0000_00ff) | ((dev & 0x0000_0fff_fff0_0000) >> 12)) as u32
}

/// The device number packing the given major and minor numbers.
pub open spec fn spec_makedev(major: u32, minor: u32) -> u64 {
    (((major as u64 & 0x0000_0fff) << 8) | ((major as u64 & 0xffff_f000) << 32) | (minor as u64
        & 0x0000_00ff) | ((minor as u64 & 0xffff_ff00) << 12))
}

/// Law: packing a major and a minor number into a device number and
/// reading them back yields the original numbers.
pub proof fn lemma_devno_round_trip(major: u32, minor: u32)
    ensures
        spec_major(spec_makedev(major, minor)) == major,
        spec_minor(spec_makedev(major, minor)) == minor,
{
    assert(spec_major(spec_makedev(major, minor)) == major && spec_minor(
        spec_makedev(major, minor),
    ) == minor) by (bit_vector);
}

/// A device number.
#[derive(Clone, Copy, Debug, PartialEq, Eq, Structural)]
pub struct BlkidDevno {
    dev: u64,
}

impl BlkidDevno {
    /// The packed native value of this device number.
    pub closed spec fn spec_dev(self) -> u64 {
        self.dev
    }

    /// Wrap a native device number.
    pub fn new(devno: u64) -> (r: Self)
        ensures
            r.spec_dev() == devno,
    {
        BlkidDevno { dev: devno }
    }

    /// The packed native value of this device number.
    pub fn as_dev_t(&self) -> (r: u64)
        ensures
            r == self.spec_dev(),
    {
        self.dev
    }

    /// Create a device number from major and minor numbers.
    pub fn from_device_numbers(major: maj_t, minor: min_t) -> (r: Self)
        ensures
            r.spec_dev() == spec_makedev(major, minor),
    {
        let dev = ((major as u64 & 0x0000_0fff) << 8u64) | ((major as u64 & 0xffff_f000) << 32u64)
            | (minor as u64 & 0x0000_00ff) | ((minor as u64 & 0xffff_ff00) << 12u64);
        BlkidDevno { dev }
    }

    /// Get the major number.
    pub fn major(&self) -> (r: maj_t)
        ensures
            r == spec_major(self.spec_dev()),
    {
        (((self.dev & 0x0000_0000_000f_ff00) >> 8u64) | ((self.dev & 0xffff_f000_0000_0000)
            >> 32u64)) as u32
    }

    /// Get the minor number.
    pub fn minor(&self) -> (r: min_t)
        ensures
            r == spec_minor(self.spec_dev()),
    {
        ((self.dev & 0x0000_0000_0000_00ff) | ((self.dev & 0x0000_0fff_fff0_0000) >> 12u64)) as u32
    }

    /// Get the device name for this device number.  The native lookup
    /// hands back the name as an allocated C string or null; this
    /// translates that outcome, given here as the name's bytes.
    pub fn to_devname(&self, outcome: Option<Vec<u8>>) -> (r: Result<String, BlkidErr>)
        ensures
            outcome is None ==> r == Err::<String, BlkidErr>(BlkidErr::NativeFailure),
            outcome matches Some(b) ==> (if valid_utf8(b@) {
                r matches Ok(s) && s@ == decode_utf8(b@)
            } else {
                r == Err::<String, BlkidErr>(BlkidErr::InvalidConversion)
            }),
    {
        let bytes = translate_ptr(outcome)?;
        bytes_to_string(bytes)
    }

    /// Get the device number and name of the whole disk this device
    /// belongs to.  The native call fills a name buffer and a device
    /// number and reports a status code; those outcomes are translated
    /// here.
    pub fn to_wholedisk(&self, status: i32, name: Option<Vec<u8>>, wholedisk_devno: u64) -> (r:
        Result<(String, BlkidDevno), BlkidErr>)
        requires
            status == 0 ==> name is Some,
        ensures
            status < 0 ==> r == Err::<(String, BlkidDevno), BlkidErr>(BlkidErr::NativeFailure),
            status > 0 ==> r == Err::<(String, BlkidDevno), BlkidErr>(
                BlkidErr::UnexpectedPositiveCode,
            ),
            status == 0 && valid_utf8(name->Some_0@) ==> (r matches Ok(p) && p.0@ == decode_utf8(
                name->Some_0@,
            ) && p.1.spec_dev() == wholedisk_devno),
            status == 0 && !valid_utf8(name->Some_0@) ==> r == Err::<
                (String, BlkidDevno),
                BlkidErr,
            >(BlkidErr::InvalidConversion),
    {
        translate_status(status)?;
        match name {
            Some(bytes) => {
                let s = bytes_to_string(bytes)?;
                Ok((s, BlkidDevno { dev: wholedisk_devno }))
            },
            None => Err(BlkidErr::NativeFailure),
        }
    }
}

} // verus!
