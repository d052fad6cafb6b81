//! The probing session: a structure for probing one block device.
//!
//! The probe owns one native handle and moves through a small lifecycle:
//! freshly allocated, bound to a device, configured, probed; a reset
//! returns it to fresh without reallocating.  Every operation takes the
//! raw outcome of its native call as an argument and translates it
//! through the canonical translators; the decisions that must precede a
//! native call, such as the bounds check of a value lookup, are made
//! here, so an out-of-range index fails before any native call is
//! issued.

use vstd::prelude::*;
use vstd::string::*;
use vstd::utf8::{decode_utf8, valid_utf8};

use crate::consts::{
    BlkidFltr, BlkidFullprobeRet, BlkidProbeRet, BlkidProbreqFlags, BlkidSafeprobeRet,
    BlkidSublksFlags, BlkidUsageFlags,
};
use crate::devno::BlkidDevno;
use crate::encode::{bytes_to_string, nul_free, to_native_text};
use crate::err::{translate_status, translate_value, BlkidErr};
use crate::partition::BlkidPartlist;
use crate::topology::BlkidTopology;

verus! {

/// Where a probing session stands in its lifecycle.
#[derive(Clone, Copy, Debug, PartialEq, Eq, Structural)]
pub enum ProbeState {
    /// The handle is allocated and no device is attached.
    Fresh,
    /// A device has been attached.
    DeviceBound,
    /// Detection subsystems or filters have been configured.
    Configured,
    /// At least one probing step has run since the last configuration.
    Probed,
}

/// The state after a configuration call: configuring means nothing
/// before a device is attached, and otherwise leaves the session
/// configured, also when results had already been read.
pub open spec fn after_configure(s: ProbeState) -> ProbeState {
    match s {
        ProbeState::Fresh => ProbeState::Fresh,
        _ => ProbeState::Configured,
    }
}

/// The message produced when a value index is out of bounds.
pub open spec fn spec_value_bounds_msg() -> Seq<char> {
    "num must be between 0 and the last valid index"@
}

/// The outcome of the native value read behind `get_value`: its status
/// code and, on success, the bytes of the entry's name and data.
pub struct ValueOutcome {
    /// Status code the native read returned.
    pub status: i32,
    /// Bytes of the entry's name.
    pub name: Option<Vec<u8>>,
    /// Bytes of the entry's data.
    pub data: Option<Vec<u8>>,
}

/// The outcome of the native lookup behind `lookup_value`: its status
/// code and, on success, the bytes of the value.
pub struct LookupOutcome {
    /// Status code the native lookup returned.
    pub status: i32,
    /// Bytes of the value.
    pub data: Option<Vec<u8>>,
}

/// How a status-plus-text outcome translates: the status code decides
/// through the status translator, and on success the bytes must decode.
pub open spec fn spec_status_text_outcome(
    status: i32,
    data: Option<Vec<u8>>,
    r: Result<String, BlkidErr>,
) -> bool {
    if status < 0 {
        r == Err::<String, BlkidErr>(BlkidErr::NativeFailure)
    } else if status > 0 {
        r == Err::<String, BlkidErr>(BlkidErr::UnexpectedPositiveCode)
    } else {
        match data {
            Some(b) => (if valid_utf8(b@) {
                r matches Ok(s) && s@ == decode_utf8(b@)
            } else {
                r == Err::<String, BlkidErr>(BlkidErr::InvalidConversion)
            }),
            None => true,
        }
    }
}

/// A structure for probing one block device.
#[derive(Debug)]
pub struct BlkidProbe {
    state: ProbeState,
}

impl BlkidProbe {
    /// Where this session stands in its lifecycle.
    pub closed spec fn spec_state(self) -> ProbeState {
        self.state
    }

    /// Where this session stands in its lifecycle.
    pub fn state(&self) -> (r: ProbeState)
        ensures
            r == self.spec_state(),
    {
        self.state
    }

    /// Allocate a new probe.  The native allocation hands back a handle
    /// or null; null is a native failure, and a fresh session otherwise.
    pub fn new(allocated: bool) -> (r: Result<BlkidProbe, BlkidErr>)
        ensures
            !allocated ==> r == Err::<BlkidProbe, BlkidErr>(BlkidErr::NativeFailure),
            allocated ==> (r matches Ok(p) && p.spec_state() is Fresh),
    {
        if allocated {
            Ok(BlkidProbe { state: ProbeState::Fresh })
        } else {
            Err(BlkidErr::NativeFailure)
        }
    }

    /// Create a new probe already bound to the named file.  A filename
    /// holding an embedded null byte fails with a conversion error
    /// before any native call can be issued; the native allocation hands
    /// back a handle or null, and null is a native failure.
    pub fn new_from_filename(filename: &str, allocated: Option<bool>) -> (r: Result<
        BlkidProbe,
        BlkidErr,
    >)
        requires
            nul_free(filename.spec_bytes()) ==> allocated is Some,
        ensures
            !nul_free(filename.spec_bytes()) ==> r == Err::<BlkidProbe, BlkidErr>(
                BlkidErr::InvalidConversion,
            ),
            nul_free(filename.spec_bytes()) ==> (match allocated {
                Some(ok) => (if ok {
                    r matches Ok(p) && p.spec_state() is DeviceBound
                } else {
                    r == Err::<BlkidProbe, BlkidErr>(BlkidErr::NativeFailure)
                }),
                None => true,
            }),
    {
        if to_native_text(filename).is_err() {
            return Err(BlkidErr::InvalidConversion);
        }
        match allocated {
            Some(true) => Ok(BlkidProbe { state: ProbeState::DeviceBound }),
            Some(false) => Err(BlkidErr::NativeFailure),
            None => Err(BlkidErr::InvalidConversion),
        }
    }

    /// Reset the probe.  The native reset keeps the handle but forgets
    /// the device, filters and results: the session is fresh again.
    pub fn reset(&mut self)
        ensures
            final(self).spec_state() is Fresh,
    {
        self.state = ProbeState::Fresh;
    }

    /// Reset and free all buffers used in the probe.  The native call
    /// reports a status code; the lifecycle state is unchanged.
    pub fn reset_buffers(&mut self, status: i32) -> (r: Result<(), BlkidErr>)
        ensures
            *final(self) == *old(self),
            status == 0 ==> r == Ok::<(), BlkidErr>(()),
            status < 0 ==> r == Err::<(), BlkidErr>(BlkidErr::NativeFailure),
            status > 0 ==> r == Err::<(), BlkidErr>(BlkidErr::UnexpectedPositiveCode),
    {
        translate_status(status)
    }

    /// Hide a memory range of the probe from the next probing step.  The
    /// native call reports a status code.
    pub fn hide_range(&mut self, offset: u64, len: u64, status: i32) -> (r: Result<(), BlkidErr>)
        ensures
            *final(self) == *old(self),
            status == 0 ==> r == Ok::<(), BlkidErr>(()),
            status < 0 ==> r == Err::<(), BlkidErr>(BlkidErr::NativeFailure),
            status > 0 ==> r == Err::<(), BlkidErr>(BlkidErr::UnexpectedPositiveCode),
    {
        let _ = offset;
        let _ = len;
        translate_status(status)
    }

    /// Assign a device, by descriptor, offset and size, to the probe.
    /// The native call reports a status code; on success the session is
    /// bound to the device.
    pub fn set_device(&mut self, fd: i32, offset: i64, size: i64, status: i32) -> (r: Result<
        (),
        BlkidErr,
    >)
        ensures
            status == 0 ==> r == Ok::<(), BlkidErr>(()) && final(self).spec_state()
                is DeviceBound,
            status != 0 ==> *final(self) == *old(self),
            status < 0 ==> r == Err::<(), BlkidErr>(BlkidErr::NativeFailure),
            status > 0 ==> r == Err::<(), BlkidErr>(BlkidErr::UnexpectedPositiveCode),
    {
        let _ = fd;
        let _ = offset;
        let _ = size;
        let r = translate_status(status);
        if status == 0 {
            self.state = ProbeState::DeviceBound;
        }
        r
    }

    /// The device number of the probed device, as the native layer
    /// reported it.
    pub fn get_devno(&self, devno: u64) -> (r: BlkidDevno)
        ensures
            r.spec_dev() == devno,
    {
        BlkidDevno::new(devno)
    }

    /// The device number of the whole disk the probed device belongs
    /// to, as the native layer reported it.
    pub fn get_wholedisk_devno(&self, devno: u64) -> (r: BlkidDevno)
        ensures
            r.spec_dev() == devno,
    {
        BlkidDevno::new(devno)
    }

    /// Whether the probed device is an entire disk: the native check
    /// reports a plain integer, positive meaning yes.
    pub fn is_wholedisk(&self, raw: i32) -> (r: bool)
        ensures
            r == (raw > 0),
    {
        raw > 0
    }

    /// The size of the probing area, as the native layer reported it.
    pub fn get_size(&self, raw: i64) -> (r: i64)
        ensures
            r == raw,
    {
        raw
    }

    /// The offset of the probing area, as the native layer reported it.
    pub fn get_offset(&self, raw: i64) -> (r: i64)
        ensures
            r == raw,
    {
        raw
    }

    /// The sector size of the attached device, as the native layer
    /// reported it.
    pub fn get_sector_size(&self, raw: u32) -> (r: u32)
        ensures
            r == raw,
    {
        raw
    }

    /// The file descriptor of the probed device.  The native read
    /// reports a descriptor that is negative on failure.
    pub fn get_fd(&self, raw: i32) -> (r: Result<i32, BlkidErr>)
        ensures
            raw < 0 ==> r == Err::<i32, BlkidErr>(BlkidErr::NativeFailure),
            raw >= 0 ==> r == Ok::<i32, BlkidErr>(raw),
    {
        translate_value(raw)
    }

    /// Enable or disable superblock probing.  The native call reports a
    /// status code; on success the session counts as configured.
    /// Toggling is idempotent, and toggling off does not invalidate
    /// values already read.
    pub fn enable_superblocks(&mut self, enable: bool, status: i32) -> (r: Result<(), BlkidErr>)
        ensures
            status == 0 ==> r == Ok::<(), BlkidErr>(()) && final(self).spec_state()
                == after_configure(old(self).spec_state()),
            status != 0 ==> *final(self) == *old(self),
            status < 0 ==> r == Err::<(), BlkidErr>(BlkidErr::NativeFailure),
            status > 0 ==> r == Err::<(), BlkidErr>(BlkidErr::UnexpectedPositiveCode),
    {
        let _ = enable;
        self.configure(status)
    }

    /// Set the superblock probing flags.  The native call reports a
    /// status code; on success the session counts as configured.
    pub fn set_superblock_flags(&mut self, flags: BlkidSublksFlags, status: i32) -> (r: Result<
        (),
        BlkidErr,
    >)
        ensures
            status == 0 ==> r == Ok::<(), BlkidErr>(()) && final(self).spec_state()
                == after_configure(old(self).spec_state()),
            status != 0 ==> *final(self) == *old(self),
            status < 0 ==> r == Err::<(), BlkidErr>(BlkidErr::NativeFailure),
            status > 0 ==> r == Err::<(), BlkidErr>(BlkidErr::UnexpectedPositiveCode),
    {
        let _ = flags;
        self.configure(status)
    }

    /// Reset the superblock probing filter.  The native call reports a
    /// status code; on success the session counts as configured.
    pub fn reset_superblock_filter(&mut self, status: i32) -> (r: Result<(), BlkidErr>)
        ensures
            status == 0 ==> r == Ok::<(), BlkidErr>(()) && final(self).spec_state()
                == after_configure(old(self).spec_state()),
            status != 0 ==> *final(self) == *old(self),
            status < 0 ==> r == Err::<(), BlkidErr>(BlkidErr::NativeFailure),
            status > 0 ==> r == Err::<(), BlkidErr>(BlkidErr::UnexpectedPositiveCode),
    {
        self.configure(status)
    }

    /// Invert the superblock probing filter.  The native call reports a
    /// status code; on success the session counts as configured.
    pub fn invert_superblock_filter(&mut self, status: i32) -> (r: Result<(), BlkidErr>)
        ensures
            status == 0 ==> r == Ok::<(), BlkidErr>(()) && final(self).spec_state()
                == after_configure(old(self).spec_state()),
            status != 0 ==> *final(self) == *old(self),
            status < 0 ==> r == Err::<(), BlkidErr>(BlkidErr::NativeFailure),
            status > 0 ==> r == Err::<(), BlkidErr>(BlkidErr::UnexpectedPositiveCode),
    {
        self.configure(status)
    }

    /// Filter superblock probing to the named types, probing only inside
    /// or only outside the list as the direction says.  Each filter call
    /// replaces the prior filter state of this channel; an empty list
    /// with the only-in direction matches nothing, which is a documented
    /// edge case and no error.  A name holding an embedded null byte
    /// fails with a conversion error before any native call can be
    /// issued.
    pub fn filter_superblock_type(
        &mut self,
        flag: BlkidFltr,
        names: &Vec<String>,
        status: Option<i32>,
    ) -> (r: Result<(), BlkidErr>)
        requires
            all_names_nul_free(names@) ==> status is Some,
        ensures
            !all_names_nul_free(names@) ==> r == Err::<(), BlkidErr>(BlkidErr::InvalidConversion)
                && *final(self) == *old(self),
            all_names_nul_free(names@) ==> (match status {
                Some(c) => (if c == 0 {
                    r == Ok::<(), BlkidErr>(()) && final(self).spec_state() == after_configure(
                        old(self).spec_state(),
                    )
                } else if c < 0 {
                    r == Err::<(), BlkidErr>(BlkidErr::NativeFailure) && *final(self) == *old(self)
                } else {
                    r == Err::<(), BlkidErr>(BlkidErr::UnexpectedPositiveCode) && *final(self)
                        == *old(self)
                }),
                None => true,
            }),
    {
        let _ = flag;
        if !check_names(names) {
            return Err(BlkidErr::InvalidConversion);
        }
        match status {
            Some(c) => self.configure(c),
            None => Err(BlkidErr::InvalidConversion),
        }
    }

    /// Filter superblock probing by usage categories, probing only
    /// inside or only outside the given set as the direction says.  The
    /// native call reports a status code; on success the session counts
    /// as configured.
    pub fn filter_superblock_usage(
        &mut self,
        flag: BlkidFltr,
        usage: BlkidUsageFlags,
        status: i32,
    ) -> (r: Result<(), BlkidErr>)
        ensures
            status == 0 ==> r == Ok::<(), BlkidErr>(()) && final(self).spec_state()
                == after_configure(old(self).spec_state()),
            status != 0 ==> *final(self) == *old(self),
            status < 0 ==> r == Err::<(), BlkidErr>(BlkidErr::NativeFailure),
            status > 0 ==> r == Err::<(), BlkidErr>(BlkidErr::UnexpectedPositiveCode),
    {
        let _ = flag;
        let _ = usage;
        self.configure(status)
    }

    /// Enable or disable topology probing, as `enable_superblocks` does
    /// for superblocks.
    pub fn enable_topology(&mut self, enable: bool, status: i32) -> (r: Result<(), BlkidErr>)
        ensures
            status == 0 ==> r == Ok::<(), BlkidErr>(()) && final(self).spec_state()
                == after_configure(old(self).spec_state()),
            status != 0 ==> *final(self) == *old(self),
            status < 0 ==> r == Err::<(), BlkidErr>(BlkidErr::NativeFailure),
            status > 0 ==> r == Err::<(), BlkidErr>(BlkidErr::UnexpectedPositiveCode),
    {
        let _ = enable;
        self.configure(status)
    }

    /// The topology of the probed device.  The native read hands back a
    /// view or null; null is a native failure.  Each read overwrites the
    /// probe's single internal topology storage, so only one topology
    /// per probe should be in use at a time.
    pub fn get_topology(&mut self, outcome: Option<BlkidTopology>) -> (r: Result<
        BlkidTopology,
        BlkidErr,
    >)
        ensures
            *final(self) == *old(self),
            outcome is None ==> r == Err::<BlkidTopology, BlkidErr>(BlkidErr::NativeFailure),
            outcome matches Some(t) ==> r == Ok::<BlkidTopology, BlkidErr>(t),
    {
        crate::err::translate_ptr(outcome)
    }

    /// Enable or disable partition probing, as `enable_superblocks` does
    /// for superblocks.
    pub fn enable_partitions(&mut self, enable: bool, status: i32) -> (r: Result<(), BlkidErr>)
        ensures
            status == 0 ==> r == Ok::<(), BlkidErr>(()) && final(self).spec_state()
                == after_configure(old(self).spec_state()),
            status != 0 ==> *final(self) == *old(self),
            status < 0 ==> r == Err::<(), BlkidErr>(BlkidErr::NativeFailure),
            status > 0 ==> r == Err::<(), BlkidErr>(BlkidErr::UnexpectedPositiveCode),
    {
        let _ = enable;
        self.configure(status)
    }

    /// Reset the partition filter, as `reset_superblock_filter` does for
    /// superblocks.
    pub fn reset_partition_filter(&mut self, status: i32) -> (r: Result<(), BlkidErr>)
        ensures
            status == 0 ==> r == Ok::<(), BlkidErr>(()) && final(self).spec_state()
                == after_configure(old(self).spec_state()),
            status != 0 ==> *final(self) == *old(self),
            status < 0 ==> r == Err::<(), BlkidErr>(BlkidErr::NativeFailure),
            status > 0 ==> r == Err::<(), BlkidErr>(BlkidErr::UnexpectedPositiveCode),
    {
        self.configure(status)
    }

    /// Invert the partition filter, as `invert_superblock_filter` does
    /// for superblocks.
    pub fn invert_partition_filter(&mut self, status: i32) -> (r: Result<(), BlkidErr>)
        ensures
            status == 0 ==> r == Ok::<(), BlkidErr>(()) && final(self).spec_state()
                == after_configure(old(self).spec_state()),
            status != 0 ==> *final(self) == *old(self),
            status < 0 ==> r == Err::<(), BlkidErr>(BlkidErr::NativeFailure),
            status > 0 ==> r == Err::<(), BlkidErr>(BlkidErr::UnexpectedPositiveCode),
    {
        self.configure(status)
    }

    /// Filter partition probing to the named partition types, as
    /// `filter_superblock_type` does for superblock types.
    pub fn filter_partition_types(
        &mut self,
        flag: BlkidFltr,
        names: &Vec<String>,
        status: Option<i32>,
    ) -> (r: Result<(), BlkidErr>)
        requires
            all_names_nul_free(names@) ==> status is Some,
        ensures
            !all_names_nul_free(names@) ==> r == Err::<(), BlkidErr>(BlkidErr::InvalidConversion)
                && *final(self) == *old(self),
            all_names_nul_free(names@) ==> (match status {
                Some(c) => (if c == 0 {
                    r == Ok::<(), BlkidErr>(()) && final(self).spec_state() == after_configure(
                        old(self).spec_state(),
                    )
                } else if c < 0 {
                    r == Err::<(), BlkidErr>(BlkidErr::NativeFailure) && *final(self) == *old(self)
                } else {
                    r == Err::<(), BlkidErr>(BlkidErr::UnexpectedPositiveCode) && *final(self)
                        == *old(self)
                }),
                None => true,
            }),
    {
        let _ = flag;
        if !check_names(names) {
            return Err(BlkidErr::InvalidConversion);
        }
        match status {
            Some(c) => self.configure(c),
            None => Err(BlkidErr::InvalidConversion),
        }
    }

    /// The list of probed partitions.  The native read hands back a list
    /// or null; null is a native failure.
    pub fn get_partitions(&mut self, outcome: Option<BlkidPartlist>) -> (r: Result<
        BlkidPartlist,
        BlkidErr,
    >)
        ensures
            *final(self) == *old(self),
            outcome is None ==> r == Err::<BlkidPartlist, BlkidErr>(BlkidErr::NativeFailure),
            outcome is Some ==> r is Ok,
    {
        crate::err::translate_ptr(outcome)
    }

    /// Run exactly one probing step.  The native step reports success, a
    /// done marker once no chain is left, or a negative failure; callers
    /// must loop until the done marker or they will miss later results.
    /// On a successful step the session counts as probed.
    pub fn do_probe(&mut self, raw: i32) -> (r: Result<BlkidProbeRet, BlkidErr>)
        ensures
            raw < 0 ==> r == Err::<BlkidProbeRet, BlkidErr>(BlkidErr::NativeFailure)
                && *final(self) == *old(self),
            raw >= 0 ==> (match BlkidProbeRet::spec_from_native(raw) {
                Some(v) => r == Ok::<BlkidProbeRet, BlkidErr>(v) && final(self).spec_state()
                    is Probed,
                None => r == Err::<BlkidProbeRet, BlkidErr>(BlkidErr::InvalidConversion)
                    && *final(self) == *old(self),
            }),
    {
        let code = translate_value(raw)?;
        let v = BlkidProbeRet::try_from_native(code)?;
        self.state = ProbeState::Probed;
        Ok(v)
    }

    /// Run all enabled chains and check for ambiguous results.  The
    /// native call reports success, a nothing-found marker, a
    /// distinguished ambiguity marker, or minus one on failure; the
    /// ambiguity marker is a result, not an error.  On any reported
    /// outcome the session counts as probed.
    pub fn do_safeprobe(&mut self, raw: i32) -> (r: Result<BlkidSafeprobeRet, BlkidErr>)
        ensures
            raw == -1i32 ==> r == Err::<BlkidSafeprobeRet, BlkidErr>(BlkidErr::NativeFailure)
                && *final(self) == *old(self),
            raw != -1i32 ==> (match BlkidSafeprobeRet::spec_from_native(raw) {
                Some(v) => r == Ok::<BlkidSafeprobeRet, BlkidErr>(v) && final(self).spec_state()
                    is Probed,
                None => r == Err::<BlkidSafeprobeRet, BlkidErr>(BlkidErr::InvalidConversion)
                    && *final(self) == *old(self),
            }),
    {
        if raw == -1i32 {
            return Err(BlkidErr::NativeFailure);
        }
        let v = BlkidSafeprobeRet::try_from_native(raw)?;
        self.state = ProbeState::Probed;
        Ok(v)
    }

    /// Run all enabled chains without checking for collisions: among
    /// colliding chains the last writer silently wins.  The native call
    /// reports success, a nothing-found marker, or a negative failure.
    /// On a successful run the session counts as probed.
    pub fn do_fullprobe(&mut self, raw: i32) -> (r: Result<BlkidFullprobeRet, BlkidErr>)
        ensures
            raw < 0 ==> r == Err::<BlkidFullprobeRet, BlkidErr>(BlkidErr::NativeFailure)
                && *final(self) == *old(self),
            raw >= 0 ==> (match BlkidFullprobeRet::spec_from_native(raw) {
                Some(v) => r == Ok::<BlkidFullprobeRet, BlkidErr>(v) && final(self).spec_state()
                    is Probed,
                None => r == Err::<BlkidFullprobeRet, BlkidErr>(BlkidErr::InvalidConversion)
                    && *final(self) == *old(self),
            }),
    {
        let code = translate_value(raw)?;
        let v = BlkidFullprobeRet::try_from_native(code)?;
        self.state = ProbeState::Probed;
        Ok(v)
    }

    /// The number of values the probe has discovered.  The native read
    /// reports a count that is negative on failure.
    pub fn numof_values(&self, raw: i32) -> (r: Result<usize, BlkidErr>)
        ensures
            raw < 0 ==> r == Err::<usize, BlkidErr>(BlkidErr::NativeFailure),
            raw >= 0 ==> r == Ok::<usize, BlkidErr>(raw as usize),
    {
        let v = translate_value(raw)?;
        Ok(v as usize)
    }

    /// The name and data of the discovered entry at the given index.
    /// The index is checked against the count of values first: an
    /// out-of-range index fails with a bounds message while no native
    /// call is issued, which is why the native outcome is absent then.
    /// In range, the native read's status code is translated, and the
    /// entry's name and data must decode as text.
    pub fn get_value(&self, num: u32, numof: usize, outcome: Option<ValueOutcome>) -> (r: Result<
        (String, String),
        BlkidErr,
    >)
        requires
            (num as int) < numof ==> outcome is Some,
            (match outcome {
                Some(o) => o.status == 0 ==> o.name is Some && o.data is Some,
                None => true,
            }),
        ensures
            (num as int) >= numof ==> (r matches Err(e) && e matches BlkidErr::Other(m) && m@
                == spec_value_bounds_msg()),
            (num as int) < numof ==> (match outcome {
                Some(o) => (if o.status < 0 {
                    r == Err::<(String, String), BlkidErr>(BlkidErr::NativeFailure)
                } else if o.status > 0 {
                    r == Err::<(String, String), BlkidErr>(BlkidErr::UnexpectedPositiveCode)
                } else {
                    spec_value_pair_outcome(o.name->0@, o.data->0@, r)
                }),
                None => true,
            }),
    {
        if (num as usize) >= numof {
            return Err(
                BlkidErr::Other(String::from_str("num must be between 0 and the last valid index")),
            );
        }
        match outcome {
            Some(o) => {
                translate_status(o.status)?;
                let name = bytes_to_string(o.name.unwrap())?;
                let data = bytes_to_string(o.data.unwrap())?;
                Ok((name, data))
            },
            None => Err(BlkidErr::NativeFailure),
        }
    }

    /// The value of the discovered entry with the given name; the match
    /// is case-sensitive and exact.  A name holding an embedded null
    /// byte fails with a conversion error before any native call can be
    /// issued; otherwise the native lookup's status code is translated
    /// and the value must decode as text.
    pub fn lookup_value(&self, name: &str, outcome: Option<LookupOutcome>) -> (r: Result<
        String,
        BlkidErr,
    >)
        requires
            nul_free(name.spec_bytes()) ==> outcome is Some,
            (match outcome {
                Some(o) => o.status == 0 ==> o.data is Some,
                None => true,
            }),
        ensures
            !nul_free(name.spec_bytes()) ==> r == Err::<String, BlkidErr>(
                BlkidErr::InvalidConversion,
            ),
            nul_free(name.spec_bytes()) ==> (match outcome {
                Some(o) => spec_status_text_outcome(o.status, o.data, r),
                None => true,
            }),
    {
        if to_native_text(name).is_err() {
            return Err(BlkidErr::InvalidConversion);
        }
        match outcome {
            Some(o) => {
                translate_status(o.status)?;
                match o.data {
                    Some(bytes) => bytes_to_string(bytes),
                    None => Err(BlkidErr::NativeFailure),
                }
            },
            None => Err(BlkidErr::InvalidConversion),
        }
    }

    /// Whether the probe discovered an entry with the given name.  The
    /// native check reports a plain integer, zero meaning no.  A name
    /// holding an embedded null byte fails with a conversion error
    /// before any native call can be issued.
    pub fn has_value(&self, name: &str, raw: Option<i32>) -> (r: Result<bool, BlkidErr>)
        requires
            nul_free(name.spec_bytes()) ==> raw is Some,
        ensures
            !nul_free(name.spec_bytes()) ==> r == Err::<bool, BlkidErr>(
                BlkidErr::InvalidConversion,
            ),
            nul_free(name.spec_bytes()) ==> (match raw {
                Some(v) => r == Ok::<bool, BlkidErr>(v != 0),
                None => true,
            }),
    {
        if to_native_text(name).is_err() {
            return Err(BlkidErr::InvalidConversion);
        }
        match raw {
            Some(v) => Ok(v != 0),
            None => Err(BlkidErr::InvalidConversion),
        }
    }

    /// Wipe the currently probed block signature, or only pretend to
    /// when asked for a dry run.  The native call reports a status code.
    pub fn do_wipe(&mut self, dry_run: bool, status: i32) -> (r: Result<(), BlkidErr>)
        ensures
            *final(self) == *old(self),
            status == 0 ==> r == Ok::<(), BlkidErr>(()),
            status < 0 ==> r == Err::<(), BlkidErr>(BlkidErr::NativeFailure),
            status > 0 ==> r == Err::<(), BlkidErr>(BlkidErr::UnexpectedPositiveCode),
    {
        let _ = dry_run;
        translate_status(status)
    }

    /// Step the probing back one step on the chain.  The native call
    /// reports a status code.
    pub fn step_back(&mut self, status: i32) -> (r: Result<(), BlkidErr>)
        ensures
            *final(self) == *old(self),
            status == 0 ==> r == Ok::<(), BlkidErr>(()),
            status < 0 ==> r == Err::<(), BlkidErr>(BlkidErr::NativeFailure),
            status > 0 ==> r == Err::<(), BlkidErr>(BlkidErr::UnexpectedPositiveCode),
    {
        translate_status(status)
    }

    /// Set the probe request flags.  The native call reports a status
    /// code; on success the session counts as configured.
    pub fn set_request(&mut self, flags: BlkidProbreqFlags, status: i32) -> (r: Result<
        (),
        BlkidErr,
    >)
        ensures
            status == 0 ==> r == Ok::<(), BlkidErr>(()) && final(self).spec_state()
                == after_configure(old(self).spec_state()),
            status != 0 ==> *final(self) == *old(self),
            status < 0 ==> r == Err::<(), BlkidErr>(BlkidErr::NativeFailure),
            status > 0 ==> r == Err::<(), BlkidErr>(BlkidErr::UnexpectedPositiveCode),
    {
        let _ = flags;
        self.configure(status)
    }

    /// Shared configuration transition: translate the status code and,
    /// on success, count the session as configured.
    pub(crate) fn configure(&mut self, status: i32) -> (r: Result<(), BlkidErr>)
        ensures
            status == 0 ==> r == Ok::<(), BlkidErr>(()) && final(self).spec_state()
                == after_configure(old(self).spec_state()),
            status != 0 ==> *final(self) == *old(self),
            status < 0 ==> r == Err::<(), BlkidErr>(BlkidErr::NativeFailure),
            status > 0 ==> r == Err::<(), BlkidErr>(BlkidErr::UnexpectedPositiveCode),
    {
        let r = translate_status(status);
        if status == 0 {
            match self.state {
                ProbeState::Fresh => {},
                _ => {
                    self.state = ProbeState::Configured;
                },
            }
        }
        r
    }
}

/// How the name and data bytes of a successful value read translate:
/// both must decode as text, and failure of either is a conversion
/// error.
pub open spec fn spec_value_pair_outcome(
    name: Seq<u8>,
    data: Seq<u8>,
    r: Result<(String, String), BlkidErr>,
) -> bool {
    if valid_utf8(name) && valid_utf8(data) {
        r matches Ok(p) && p.0@ == decode_utf8(name) && p.1@ == decode_utf8(data)
    } else {
        r == Err::<(String, String), BlkidErr>(BlkidErr::InvalidConversion)
    }
}

/// No name in the list holds an embedded null byte, judged on the bytes
/// its characters encode to.
pub open spec fn all_names_nul_free(names: Seq<String>) -> bool {
    forall|i: int|
        0 <= i < names.len() ==> nul_free(
            vstd::utf8::encode_utf8((#[trigger] names[i]).view()),
        )
}

/// Check every name of a filter list for embedded null bytes.
pub(crate) fn check_names(names: &Vec<String>) -> (r: bool)
    ensures
        r == all_names_nul_free(names@),
{
    let mut i: usize = 0;
    while i < names.len()
        invariant
            i <= names.len(),
            forall|j: int|
                0 <= j < i ==> nul_free(vstd::utf8::encode_utf8((#[trigger] names@[j]).view())),
        decreases names.len() - i,
    {
        if to_native_text(names[i].as_str()).is_err() {
            return false;
        }
        i = i + 1;
    }
    true
}

/// Whether the given string names a known filesystem type.  The native
/// check reports a plain integer, positive meaning yes.  A name holding
/// an embedded null byte fails with a conversion error before any
/// native call can be issued.
pub fn is_known_fs_type(fstype: &str, raw: Option<i32>) -> (r: Result<bool, BlkidErr>)
    requires
        nul_free(fstype.spec_bytes()) ==> raw is Some,
    ensures
        !nul_free(fstype.spec_bytes()) ==> r == Err::<bool, BlkidErr>(BlkidErr::InvalidConversion),
        nul_free(fstype.spec_bytes()) ==> (match raw {
            Some(v) => r == Ok::<bool, BlkidErr>(v > 0),
            None => true,
        }),
{
    if to_native_text(fstype).is_err() {
        return Err(BlkidErr::InvalidConversion);
    }
    match raw {
        Some(v) => Ok(v > 0),
        None => Err(BlkidErr::InvalidConversion),
    }
}

/// Whether the given string names a known partition type.  The native
/// check reports a plain integer, zero meaning no.  A name holding an
/// embedded null byte fails with a conversion error before any native
/// call can be issued.
pub fn is_known_partition_type(type_: &str, raw: Option<i32>) -> (r: Result<bool, BlkidErr>)
    requires
        nul_free(type_.spec_bytes()) ==> raw is Some,
    ensures
        !nul_free(type_.spec_bytes()) ==> r == Err::<bool, BlkidErr>(BlkidErr::InvalidConversion),
        nul_free(type_.spec_bytes()) ==> (match raw {
            Some(v) => r == Ok::<bool, BlkidErr>(v != 0),
            None => true,
        }),
{
    if to_native_text(type_).is_err() {
        return Err(BlkidErr::InvalidConversion);
    }
    match raw {
        Some(v) => Ok(v != 0),
        None => Err(BlkidErr::InvalidConversion),
    }
}

/// The name and usage flags of the superblock chain entry at the given
/// index of the native library's internal table.  The native read
/// reports a status code, the entry's name, and its usage bits; the
/// bits must convert to known usage flags.
pub fn get_superblock_name(
    index: usize,
    name_outcome: Option<Vec<u8>>,
    flags_raw: Option<i32>,
    status: i32,
) -> (r: Result<(Option<String>, Option<BlkidUsageFlags>), BlkidErr>)
    ensures
        status < 0 ==> r == Err::<(Option<String>, Option<BlkidUsageFlags>), BlkidErr>(
            BlkidErr::NativeFailure,
        ),
        status > 0 ==> r == Err::<(Option<String>, Option<BlkidUsageFlags>), BlkidErr>(
            BlkidErr::UnexpectedPositiveCode,
        ),
        status == 0 ==> spec_superblock_entry(name_outcome, flags_raw, r),
{
    let _ = index;
    translate_status(status)?;
    let name = match name_outcome {
        Some(bytes) => Some(bytes_to_string(bytes)?),
        None => None,
    };
    let flags = match flags_raw {
        Some(v) => Some(BlkidUsageFlags::try_from_native(v)?),
        None => None,
    };
    Ok((name, flags))
}

/// How a successful superblock-table read translates: an unrequested
/// component comes back absent; a requested name must decode as text
/// and requested usage bits must all be known, each failing with a
/// conversion error otherwise, the name first.
pub open spec fn spec_superblock_entry(
    name_outcome: Option<Vec<u8>>,
    flags_raw: Option<i32>,
    r: Result<(Option<String>, Option<BlkidUsageFlags>), BlkidErr>,
) -> bool {
    match name_outcome {
        Some(b) => (if valid_utf8(b@) {
            spec_superblock_flags_part(Some(decode_utf8(b@)), flags_raw, r)
        } else {
            r == Err::<(Option<String>, Option<BlkidUsageFlags>), BlkidErr>(
                BlkidErr::InvalidConversion,
            )
        }),
        None => spec_superblock_flags_part(None, flags_raw, r),
    }
}

/// The usage-flags half of a successful superblock-table read, after
/// the name half decoded to `name_text`.
pub open spec fn spec_superblock_flags_part(
    name_text: Option<Seq<char>>,
    flags_raw: Option<i32>,
    r: Result<(Option<String>, Option<BlkidUsageFlags>), BlkidErr>,
) -> bool {
    match flags_raw {
        Some(v) => (if v as u32 & !0x001eu32 == 0 {
            r matches Ok(p) && spec_name_part(p.0, name_text) && (p.1 matches Some(f) && f.bits()
                == v)
        } else {
            r == Err::<(Option<String>, Option<BlkidUsageFlags>), BlkidErr>(
                BlkidErr::InvalidConversion,
            )
        }),
        None => (r matches Ok(p) && spec_name_part(p.0, name_text) && p.1 is None),
    }
}

/// The name component equals the decoded text, absent exactly when the
/// name was not requested.
pub open spec fn spec_name_part(o: Option<String>, name_text: Option<Seq<char>>) -> bool {
    match name_text {
        Some(t) => o matches Some(s) && s@ == t,
        None => o is None,
    }
}

/// The name of the partition chain entry at the given index of the
/// native library's internal table.  The native read reports a status
/// code and the entry's name.
pub fn get_partition_name(index: usize, name_outcome: Option<Vec<u8>>, status: i32) -> (r: Result<
    String,
    BlkidErr,
>)
    requires
        status == 0 ==> name_outcome is Some,
    ensures
        status < 0 ==> r == Err::<String, BlkidErr>(BlkidErr::NativeFailure),
        status > 0 ==> r == Err::<String, BlkidErr>(BlkidErr::UnexpectedPositiveCode),
        status == 0 ==> (if valid_utf8(name_outcome->0@) {
            r matches Ok(s) && s@ == decode_utf8(name_outcome->0@)
        } else {
            r == Err::<String, BlkidErr>(BlkidErr::InvalidConversion)
        }),
{
    let _ = index;
    translate_status(status)?;
    match name_outcome {
        Some(bytes) => bytes_to_string(bytes),
        None => Err(BlkidErr::NativeFailure),
    }
}

} // verus!
