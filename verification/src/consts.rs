//! Typed constants of the native library and their conversion tables.
//!
//! Each native integer constant family is mapped to an enum by an explicit
//! table, and each family of single-bit flags additionally has a set type
//! whose native representation is a bit pattern.  Converting a native bit
//! pattern into a set inspects every bit position: a set bit that matches no
//! known constant fails the whole conversion; nothing is silently dropped.
//! The constant values are those of the native library's public header,
//! which are part of its stable interface.

use vstd::prelude::*;

use crate::err::BlkidErr;

verus! {

/// Check that `bits` sets no bit outside `mask`, by walking every bit
/// position of the 32-bit value.  This is the shared core of the flag-set
/// conversions: each set bit must lie inside the family's known mask.
fn known_bits_only(bits: u32, mask: u32) -> (r: bool)
    ensures
        r == (bits & !mask == 0),
{
    let mut i: usize = 0;
    let mut ok = true;
    proof {
        assert(bits & 0u32 & !mask == 0) by (bit_vector);
    }
    while i < 32
        invariant
            i <= 32,
            ok == (bits & low_mask(i as u32) & !mask == 0),
        decreases 32 - i,
    {
        let bit = 1u32 << (i as u32);
        if bits & bit != 0 && mask & bit == 0 {
            ok = false;
        }
        proof {
            let j = i as u32;
            assert(low_mask((j + 1) as u32) == (low_mask(j) | (1u32 << j)) && ((bits & low_mask((j + 1) as u32)
                & !mask == 0) <==> ((bits & low_mask(j) & !mask == 0) && !(bits & (1u32 << j) != 0
                && mask & (1u32 << j) == 0)))) by (bit_vector)
                requires
                    j < 32,
            ;
        }
        i = i + 1;
    }
    proof {
        assert(low_mask(32) == 0xffff_ffffu32);
        assert(bits & 0xffff_ffffu32 & !mask == bits & !mask) by (bit_vector);
    }
    ok
}

/// The mask with the lowest `n` bits set, for `n` up to the full width.
pub open spec fn low_mask(n: u32) -> u32 {
    if n == 0 {
        0u32
    } else if n >= 32 {
        0xffff_ffffu32
    } else {
        0xffff_ffffu32 >> ((32 - n) as u32)
    }
}

/// ORing two patterns that both lie inside `m` stays inside `m`.
proof fn lemma_or_keeps_mask(a: i32, b: i32, m: u32)
    requires
        a as u32 & !m == 0,
        b as u32 & !m == 0,
    ensures
        (a | b) as u32 & !m == 0,
{
    assert((a | b) as u32 & !m == 0) by (bit_vector)
        requires
            a as u32 & !m == 0,
            b as u32 & !m == 0,
    ;
}

/// The empty pattern lies inside every mask.
proof fn lemma_zero_in_mask(m: u32)
    ensures
        0i32 as u32 & !m == 0,
{
    assert(0i32 as u32 & !m == 0) by (bit_vector);
}

/// Flags for blockdev cache operations.
#[derive(Clone, Copy, Debug, Hash, PartialEq, Eq, Structural)]
pub enum BlkidDevFlag {
    /// Only look up an existing cache entry.
    Find,
    /// Create an empty cache entry when the device is not yet known.
    Create,
    /// Make sure the cache entry is up to date.
    Verify,
    /// Both create and verify the entry.
    Normal,
}

impl BlkidDevFlag {
    /// Native constant for this value.
    pub open spec fn spec_to_native(self) -> i32 {
        match self {
            BlkidDevFlag::Find => 0x0000,
            BlkidDevFlag::Create => 0x0001,
            BlkidDevFlag::Verify => 0x0002,
            BlkidDevFlag::Normal => 0x0003,
        }
    }

    /// Value matching a native constant, if any.
    pub open spec fn spec_from_native(v: i32) -> Option<BlkidDevFlag> {
        if v == 0x0000 {
            Some(BlkidDevFlag::Find)
        } else if v == 0x0001 {
            Some(BlkidDevFlag::Create)
        } else if v == 0x0002 {
            Some(BlkidDevFlag::Verify)
        } else if v == 0x0003 {
            Some(BlkidDevFlag::Normal)
        } else {
            None
        }
    }

    /// Convert this value to its native constant.
    pub fn to_native(self) -> (r: i32)
        ensures
            r == self.spec_to_native(),
    {
        match self {
            BlkidDevFlag::Find => 0x0000,
            BlkidDevFlag::Create => 0x0001,
            BlkidDevFlag::Verify => 0x0002,
            BlkidDevFlag::Normal => 0x0003,
        }
    }

    /// Convert a native constant to the value it names; an unknown
    /// constant fails with a conversion error.
    pub fn try_from_native(v: i32) -> (r: Result<BlkidDevFlag, BlkidErr>)
        ensures
            r == match BlkidDevFlag::spec_from_native(v) {
                Some(f) => Ok::<BlkidDevFlag, BlkidErr>(f),
                None => Err::<BlkidDevFlag, BlkidErr>(BlkidErr::InvalidConversion),
            },
    {
        if v == 0x0000 {
            Ok(BlkidDevFlag::Find)
        } else if v == 0x0001 {
            Ok(BlkidDevFlag::Create)
        } else if v == 0x0002 {
            Ok(BlkidDevFlag::Verify)
        } else if v == 0x0003 {
            Ok(BlkidDevFlag::Normal)
        } else {
            Err(BlkidErr::InvalidConversion)
        }
    }
}

/// Law: every `BlkidDevFlag` value survives the round trip through its
/// native constant.
pub proof fn lemma_dev_flag_round_trip(f: BlkidDevFlag)
    ensures
        BlkidDevFlag::spec_from_native(f.spec_to_native()) == Some(f),
{
}

/// Flags for blockdev usage categories.
#[derive(Clone, Copy, Debug, Hash, PartialEq, Eq, Structural)]
pub enum BlkidUsageFlag {
    /// Content holds a filesystem.
    Filesystem,
    /// Content is a RAID member.
    Raid,
    /// Content is an encrypted volume.
    Crypto,
    /// Content is of some other recognized kind.
    Other,
}

impl BlkidUsageFlag {
    /// Native constant for this value.
    pub open spec fn spec_to_native(self) -> i32 {
        match self {
            BlkidUsageFlag::Filesystem => 0x0002,
            BlkidUsageFlag::Raid => 0x0004,
            BlkidUsageFlag::Crypto => 0x0008,
            BlkidUsageFlag::Other => 0x0010,
        }
    }

    /// Value matching a native constant, if any.
    pub open spec fn spec_from_native(v: i32) -> Option<BlkidUsageFlag> {
        if v == 0x0002 {
            Some(BlkidUsageFlag::Filesystem)
        } else if v == 0x0004 {
            Some(BlkidUsageFlag::Raid)
        } else if v == 0x0008 {
            Some(BlkidUsageFlag::Crypto)
        } else if v == 0x0010 {
            Some(BlkidUsageFlag::Other)
        } else {
            None
        }
    }

    /// Convert this value to its native constant.
    pub fn to_native(self) -> (r: i32)
        ensures
            r == self.spec_to_native(),
    {
        match self {
            BlkidUsageFlag::Filesystem => 0x0002,
            BlkidUsageFlag::Raid => 0x0004,
            BlkidUsageFlag::Crypto => 0x0008,
            BlkidUsageFlag::Other => 0x0010,
        }
    }

    /// Convert a native constant to the value it names; an unknown
    /// constant fails with a conversion error.
    pub fn try_from_native(v: i32) -> (r: Result<BlkidUsageFlag, BlkidErr>)
        ensures
            r == match BlkidUsageFlag::spec_from_native(v) {
                Some(f) => Ok::<BlkidUsageFlag, BlkidErr>(f),
                None => Err::<BlkidUsageFlag, BlkidErr>(BlkidErr::InvalidConversion),
            },
    {
        if v == 0x0002 {
            Ok(BlkidUsageFlag::Filesystem)
        } else if v == 0x0004 {
            Ok(BlkidUsageFlag::Raid)
        } else if v == 0x0008 {
            Ok(BlkidUsageFlag::Crypto)
        } else if v == 0x0010 {
            Ok(BlkidUsageFlag::Other)
        } else {
            Err(BlkidErr::InvalidConversion)
        }
    }
}

/// Law: every `BlkidUsageFlag` value survives the round trip through its
/// native constant.
pub proof fn lemma_usage_flag_round_trip(f: BlkidUsageFlag)
    ensures
        BlkidUsageFlag::spec_from_native(f.spec_to_native()) == Some(f),
{
}

/// Flags for superblock probing.
#[derive(Clone, Copy, Debug, Hash, PartialEq, Eq, Structural)]
pub enum BlkidSublks {
    /// Read the label from the superblock.
    Label,
    /// Read the label and define the `LABEL_RAW` value.
    Labelraw,
    /// Read the UUID from the superblock.
    Uuid,
    /// Read the UUID and define the `UUID_RAW` value.
    Uuidraw,
    /// Read the type and define the `TYPE` value.
    Type,
    /// Read the compatible filesystem type from the superblock.
    Sectype,
    /// Read the usage and define the `USAGE` value.
    Usage,
    /// Read the filesystem version from the superblock.
    Version,
    /// Read the superblock magic number and define the `SBMAGIC` values.
    Magic,
    /// Allow a bad checksum.
    Badcsum,
    /// Default flags: label, UUID, type and compatible type.
    Default,
}

impl BlkidSublks {
    /// Native constant for this value.
    pub open spec fn spec_to_native(self) -> i32 {
        match self {
            BlkidSublks::Label => 0x0002,
            BlkidSublks::Labelraw => 0x0004,
            BlkidSublks::Uuid => 0x0008,
            BlkidSublks::Uuidraw => 0x0010,
            BlkidSublks::Type => 0x0020,
            BlkidSublks::Sectype => 0x0040,
            BlkidSublks::Usage => 0x0080,
            BlkidSublks::Version => 0x0100,
            BlkidSublks::Magic => 0x0200,
            BlkidSublks::Badcsum => 0x0400,
            BlkidSublks::Default => 0x006a,
        }
    }

    /// Value matching a native constant, if any.
    pub open spec fn spec_from_native(v: i32) -> Option<BlkidSublks> {
        if v == 0x0002 {
            Some(BlkidSublks::Label)
        } else if v == 0x0004 {
            Some(BlkidSublks::Labelraw)
        } else if v == 0x0008 {
            Some(BlkidSublks::Uuid)
        } else if v == 0x0010 {
            Some(BlkidSublks::Uuidraw)
        } else if v == 0x0020 {
            Some(BlkidSublks::Type)
        } else if v == 0x0040 {
            Some(BlkidSublks::Sectype)
        } else if v == 0x0080 {
            Some(BlkidSublks::Usage)
        } else if v == 0x0100 {
            Some(BlkidSublks::Version)
        } else if v == 0x0200 {
            Some(BlkidSublks::Magic)
        } else if v == 0x0400 {
            Some(BlkidSublks::Badcsum)
        } else if v == 0x006a {
            Some(BlkidSublks::Default)
        } else {
            None
        }
    }

    /// Convert this value to its native constant.
    pub fn to_native(self) -> (r: i32)
        ensures
            r == self.spec_to_native(),
    {
        match self {
            BlkidSublks::Label => 0x0002,
            BlkidSublks::Labelraw => 0x0004,
            BlkidSublks::Uuid => 0x0008,
            BlkidSublks::Uuidraw => 0x0010,
            BlkidSublks::Type => 0x0020,
            BlkidSublks::Sectype => 0x0040,
            BlkidSublks::Usage => 0x0080,
            BlkidSublks::Version => 0x0100,
            BlkidSublks::Magic => 0x0200,
            BlkidSublks::Badcsum => 0x0400,
            BlkidSublks::Default => 0x006a,
        }
    }

    /// Convert a native constant to the value it names; an unknown
    /// constant fails with a conversion error.
    pub fn try_from_native(v: i32) -> (r: Result<BlkidSublks, BlkidErr>)
        ensures
            r == match BlkidSublks::spec_from_native(v) {
                Some(f) => Ok::<BlkidSublks, BlkidErr>(f),
                None => Err::<BlkidSublks, BlkidErr>(BlkidErr::InvalidConversion),
            },
    {
        if v == 0x0002 {
            Ok(BlkidSublks::Label)
        } else if v == 0x0004 {
            Ok(BlkidSublks::Labelraw)
        } else if v == 0x0008 {
            Ok(BlkidSublks::Uuid)
        } else if v == 0x0010 {
            Ok(BlkidSublks::Uuidraw)
        } else if v == 0x0020 {
            Ok(BlkidSublks::Type)
        } else if v == 0x0040 {
            Ok(BlkidSublks::Sectype)
        } else if v == 0x0080 {
            Ok(BlkidSublks::Usage)
        } else if v == 0x0100 {
            Ok(BlkidSublks::Version)
        } else if v == 0x0200 {
            Ok(BlkidSublks::Magic)
        } else if v == 0x0400 {
            Ok(BlkidSublks::Badcsum)
        } else if v == 0x006a {
            Ok(BlkidSublks::Default)
        } else {
            Err(BlkidErr::InvalidConversion)
        }
    }
}

/// Law: every `BlkidSublks` value survives the round trip through its
/// native constant.
pub proof fn lemma_sublks_round_trip(f: BlkidSublks)
    ensures
        BlkidSublks::spec_from_native(f.spec_to_native()) == Some(f),
{
}

/// Direction constants for the probing filters.
#[derive(Clone, Copy, Debug, Hash, PartialEq, Eq, Structural)]
pub enum BlkidFltr {
    /// Probe for all names that are not in the provided list.
    Notin,
    /// Probe for only the names that are in the provided list.
    Onlyin,
}

impl BlkidFltr {
    /// Native constant for this value.
    pub open spec fn spec_to_native(self) -> i32 {
        match self {
            BlkidFltr::Notin => 0x0001,
            BlkidFltr::Onlyin => 0x0002,
        }
    }

    /// Value matching a native constant, if any.
    pub open spec fn spec_from_native(v: i32) -> Option<BlkidFltr> {
        if v == 0x0001 {
            Some(BlkidFltr::Notin)
        } else if v == 0x0002 {
            Some(BlkidFltr::Onlyin)
        } else {
            None
        }
    }

    /// Convert this value to its native constant.
    pub fn to_native(self) -> (r: i32)
        ensures
            r == self.spec_to_native(),
    {
        match self {
            BlkidFltr::Notin => 0x0001,
            BlkidFltr::Onlyin => 0x0002,
        }
    }

    /// Convert a native constant to the value it names; an unknown
    /// constant fails with a conversion error.
    pub fn try_from_native(v: i32) -> (r: Result<BlkidFltr, BlkidErr>)
        ensures
            r == match BlkidFltr::spec_from_native(v) {
                Some(f) => Ok::<BlkidFltr, BlkidErr>(f),
                None => Err::<BlkidFltr, BlkidErr>(BlkidErr::InvalidConversion),
            },
    {
        if v == 0x0001 {
            Ok(BlkidFltr::Notin)
        } else if v == 0x0002 {
            Ok(BlkidFltr::Onlyin)
        } else {
            Err(BlkidErr::InvalidConversion)
        }
    }
}

/// Law: every `BlkidFltr` value survives the round trip through its
/// native constant.
pub proof fn lemma_fltr_round_trip(f: BlkidFltr)
    ensures
        BlkidFltr::spec_from_native(f.spec_to_native()) == Some(f),
{
}

/// Return value of one low level probing step.
#[derive(Clone, Copy, Debug, Hash, PartialEq, Eq, Structural)]
pub enum BlkidProbeRet {
    /// The step detected a signature.
    Success,
    /// No more probing chains are left to run.
    Done,
}

impl BlkidProbeRet {
    /// Native constant for this value.
    pub open spec fn spec_to_native(self) -> i32 {
        match self {
            BlkidProbeRet::Success => 0,
            BlkidProbeRet::Done => 1,
        }
    }

    /// Value matching a native constant, if any.
    pub open spec fn spec_from_native(v: i32) -> Option<BlkidProbeRet> {
        if v == 0 {
            Some(BlkidProbeRet::Success)
        } else if v == 1 {
            Some(BlkidProbeRet::Done)
        } else {
            None
        }
    }

    /// Convert this value to its native constant.
    pub fn to_native(self) -> (r: i32)
        ensures
            r == self.spec_to_native(),
    {
        match self {
            BlkidProbeRet::Success => 0,
            BlkidProbeRet::Done => 1,
        }
    }

    /// Convert a native constant to the value it names; an unknown
    /// constant fails with a conversion error.
    pub fn try_from_native(v: i32) -> (r: Result<BlkidProbeRet, BlkidErr>)
        ensures
            r == match BlkidProbeRet::spec_from_native(v) {
                Some(f) => Ok::<BlkidProbeRet, BlkidErr>(f),
                None => Err::<BlkidProbeRet, BlkidErr>(BlkidErr::InvalidConversion),
            },
    {
        if v == 0 {
            Ok(BlkidProbeRet::Success)
        } else if v == 1 {
            Ok(BlkidProbeRet::Done)
        } else {
            Err(BlkidErr::InvalidConversion)
        }
    }
}

/// Law: every `BlkidProbeRet` value survives the round trip through its
/// native constant.
pub proof fn lemma_probe_ret_round_trip(f: BlkidProbeRet)
    ensures
        BlkidProbeRet::spec_from_native(f.spec_to_native()) == Some(f),
{
}

/// Return value of a safe whole-chain probe.
#[derive(Clone, Copy, Debug, Hash, PartialEq, Eq, Structural)]
pub enum BlkidSafeprobeRet {
    /// A single consistent result was detected.
    Success,
    /// Nothing was detected.
    Nothing,
    /// Conflicting signatures were detected.
    Ambiguous,
}

impl BlkidSafeprobeRet {
    /// Native constant for this value.
    pub open spec fn spec_to_native(self) -> i32 {
        match self {
            BlkidSafeprobeRet::Success => 0,
            BlkidSafeprobeRet::Nothing => 1,
            BlkidSafeprobeRet::Ambiguous => -2i32,
        }
    }

    /// Value matching a native constant, if any.
    pub open spec fn spec_from_native(v: i32) -> Option<BlkidSafeprobeRet> {
        if v == 0 {
            Some(BlkidSafeprobeRet::Success)
        } else if v == 1 {
            Some(BlkidSafeprobeRet::Nothing)
        } else if v == -2i32 {
            Some(BlkidSafeprobeRet::Ambiguous)
        } else {
            None
        }
    }

    /// Convert this value to its native constant.
    pub fn to_native(self) -> (r: i32)
        ensures
            r == self.spec_to_native(),
    {
        match self {
            BlkidSafeprobeRet::Success => 0,
            BlkidSafeprobeRet::Nothing => 1,
            BlkidSafeprobeRet::Ambiguous => -2i32,
        }
    }

    /// Convert a native constant to the value it names; an unknown
    /// constant fails with a conversion error.
    pub fn try_from_native(v: i32) -> (r: Result<BlkidSafeprobeRet, BlkidErr>)
        ensures
            r == match BlkidSafeprobeRet::spec_from_native(v) {
                Some(f) => Ok::<BlkidSafeprobeRet, BlkidErr>(f),
                None => Err::<BlkidSafeprobeRet, BlkidErr>(BlkidErr::InvalidConversion),
            },
    {
        if v == 0 {
            Ok(BlkidSafeprobeRet::Success)
        } else if v == 1 {
            Ok(BlkidSafeprobeRet::Nothing)
        } else if v == -2i32 {
            Ok(BlkidSafeprobeRet::Ambiguous)
        } else {
            Err(BlkidErr::InvalidConversion)
        }
    }
}

/// Law: every `BlkidSafeprobeRet` value survives the round trip through its
/// native constant.
pub proof fn lemma_safeprobe_ret_round_trip(f: BlkidSafeprobeRet)
    ensures
        BlkidSafeprobeRet::spec_from_native(f.spec_to_native()) == Some(f),
{
}

/// Return value of a full whole-chain probe.
#[derive(Clone, Copy, Debug, Hash, PartialEq, Eq, Structural)]
pub enum BlkidFullprobeRet {
    /// A result was detected.
    Success,
    /// Nothing was detected.
    Nothing,
}

impl BlkidFullprobeRet {
    /// Native constant for this value.
    pub open spec fn spec_to_native(self) -> i32 {
        match self {
            BlkidFullprobeRet::Success => 0,
            BlkidFullprobeRet::Nothing => 1,
        }
    }

    /// Value matching a native constant, if any.
    pub open spec fn spec_from_native(v: i32) -> Option<BlkidFullprobeRet> {
        if v == 0 {
            Some(BlkidFullprobeRet::Success)
        } else if v == 1 {
            Some(BlkidFullprobeRet::Nothing)
        } else {
            None
        }
    }

    /// Convert this value to its native constant.
    pub fn to_native(self) -> (r: i32)
        ensures
            r == self.spec_to_native(),
    {
        match self {
            BlkidFullprobeRet::Success => 0,
            BlkidFullprobeRet::Nothing => 1,
        }
    }

    /// Convert a native constant to the value it names; an unknown
    /// constant fails with a conversion error.
    pub fn try_from_native(v: i32) -> (r: Result<BlkidFullprobeRet, BlkidErr>)
        ensures
            r == match BlkidFullprobeRet::spec_from_native(v) {
                Some(f) => Ok::<BlkidFullprobeRet, BlkidErr>(f),
                None => Err::<BlkidFullprobeRet, BlkidErr>(BlkidErr::InvalidConversion),
            },
    {
        if v == 0 {
            Ok(BlkidFullprobeRet::Success)
        } else if v == 1 {
            Ok(BlkidFullprobeRet::Nothing)
        } else {
            Err(BlkidErr::InvalidConversion)
        }
    }
}

/// Law: every `BlkidFullprobeRet` value survives the round trip through its
/// native constant.
pub proof fn lemma_fullprobe_ret_round_trip(f: BlkidFullprobeRet)
    ensures
        BlkidFullprobeRet::spec_from_native(f.spec_to_native()) == Some(f),
{
}

/// Probe request flags.
#[derive(Clone, Copy, Debug, Hash, PartialEq, Eq, Structural)]
pub enum BlkidProbreqFlag {
    /// Request the label.
    Label,
    /// Request the raw label.
    Labelraw,
    /// Request the UUID.
    Uuid,
    /// Request the raw UUID.
    Uuidraw,
    /// Request the type.
    Type,
    /// Request the compatible filesystem type.
    Sectype,
    /// Request the usage.
    Usage,
    /// Request the filesystem version.
    Version,
}

impl BlkidProbreqFlag {
    /// Native constant for this value.
    pub open spec fn spec_to_native(self) -> i32 {
        match self {
            BlkidProbreqFlag::Label => 0x0002,
            BlkidProbreqFlag::Labelraw => 0x0004,
            BlkidProbreqFlag::Uuid => 0x0008,
            BlkidProbreqFlag::Uuidraw => 0x0010,
            BlkidProbreqFlag::Type => 0x0020,
            BlkidProbreqFlag::Sectype => 0x0040,
            BlkidProbreqFlag::Usage => 0x0080,
            BlkidProbreqFlag::Version => 0x0100,
        }
    }

    /// Value matching a native constant, if any.
    pub open spec fn spec_from_native(v: i32) -> Option<BlkidProbreqFlag> {
        if v == 0x0002 {
            Some(BlkidProbreqFlag::Label)
        } else if v == 0x0004 {
            Some(BlkidProbreqFlag::Labelraw)
        } else if v == 0x0008 {
            Some(BlkidProbreqFlag::Uuid)
        } else if v == 0x0010 {
            Some(BlkidProbreqFlag::Uuidraw)
        } else if v == 0x0020 {
            Some(BlkidProbreqFlag::Type)
        } else if v == 0x0040 {
            Some(BlkidProbreqFlag::Sectype)
        } else if v == 0x0080 {
            Some(BlkidProbreqFlag::Usage)
        } else if v == 0x0100 {
            Some(BlkidProbreqFlag::Version)
        } else {
            None
        }
    }

    /// Convert this value to its native constant.
    pub fn to_native(self) -> (r: i32)
        ensures
            r == self.spec_to_native(),
    {
        match self {
            BlkidProbreqFlag::Label => 0x0002,
            BlkidProbreqFlag::Labelraw => 0x0004,
            BlkidProbreqFlag::Uuid => 0x0008,
            BlkidProbreqFlag::Uuidraw => 0x0010,
            BlkidProbreqFlag::Type => 0x0020,
            BlkidProbreqFlag::Sectype => 0x0040,
            BlkidProbreqFlag::Usage => 0x0080,
            BlkidProbreqFlag::Version => 0x0100,
        }
    }

    /// Convert a native constant to the value it names; an unknown
    /// constant fails with a conversion error.
    pub fn try_from_native(v: i32) -> (r: Result<BlkidProbreqFlag, BlkidErr>)
        ensures
            r == match BlkidProbreqFlag::spec_from_native(v) {
                Some(f) => Ok::<BlkidProbreqFlag, BlkidErr>(f),
                None => Err::<BlkidProbreqFlag, BlkidErr>(BlkidErr::InvalidConversion),
            },
    {
        if v == 0x0002 {
            Ok(BlkidProbreqFlag::Label)
        } else if v == 0x0004 {
            Ok(BlkidProbreqFlag::Labelraw)
        } else if v == 0x0008 {
            Ok(BlkidProbreqFlag::Uuid)
        } else if v == 0x0010 {
            Ok(BlkidProbreqFlag::Uuidraw)
        } else if v == 0x0020 {
            Ok(BlkidProbreqFlag::Type)
        } else if v == 0x0040 {
            Ok(BlkidProbreqFlag::Sectype)
        } else if v == 0x0080 {
            Ok(BlkidProbreqFlag::Usage)
        } else if v == 0x0100 {
            Ok(BlkidProbreqFlag::Version)
        } else {
            Err(BlkidErr::InvalidConversion)
        }
    }
}

/// Law: every `BlkidProbreqFlag` value survives the round trip through its
/// native constant.
pub proof fn lemma_probreq_flag_round_trip(f: BlkidProbreqFlag)
    ensures
        BlkidProbreqFlag::spec_from_native(f.spec_to_native()) == Some(f),
{
}

/// The native bit pattern of a sequence of `BlkidDevFlag` values, all ORed
/// together.
pub open spec fn or_dev_flags(s: Seq<BlkidDevFlag>) -> i32
    decreases s.len(),
{
    if s.len() == 0 {
        0i32
    } else {
        or_dev_flags(s.drop_last()) | s.last().spec_to_native()
    }
}

/// Every `BlkidDevFlag` constant lies inside the family's known mask.
proof fn lemma_dev_flags_in_mask(f: BlkidDevFlag)
    ensures
        f.spec_to_native() as u32 & !0x0003u32 == 0,
{
    let v = f.spec_to_native();
    assert(v as u32 & !0x0003u32 == 0) by (bit_vector)
        requires
            v == 0x0000 || v == 0x0001 || v == 0x0002 || v == 0x0003,
    ;
}

/// Set of flags of type `BlkidDevFlag`, held as its native bit pattern.
#[derive(Clone, Copy, Debug, PartialEq, Eq, Structural)]
pub struct BlkidDevFlags {
    bits: i32,
}

impl BlkidDevFlags {
    /// Native bit pattern held by this set.
    pub closed spec fn bits(self) -> i32 {
        self.bits
    }

    /// Every set bit of the native pattern belongs to a known flag.
    pub open spec fn well_formed(self) -> bool {
        self.bits() as u32 & !0x0003u32 == 0
    }

    /// Create an empty flag set.
    pub fn empty() -> (r: Self)
        ensures
            r.bits() == 0,
            r.well_formed(),
    {
        proof {
            lemma_zero_in_mask(0x0003u32);
        }
        BlkidDevFlags { bits: 0 }
    }

    /// Create a flag set holding exactly the given flags.
    pub fn new(flags: Vec<BlkidDevFlag>) -> (r: Self)
        ensures
            r.bits() == or_dev_flags(flags@),
            r.well_formed(),
    {
        let mut bits: i32 = 0;
        let mut i: usize = 0;
        proof {
            lemma_zero_in_mask(0x0003u32);
        }
        while i < flags.len()
            invariant
                i <= flags.len(),
                bits == or_dev_flags(flags@.take(i as int)),
                bits as u32 & !0x0003u32 == 0,
            decreases flags.len() - i,
        {
            let f = flags[i];
            proof {
                lemma_dev_flags_in_mask(f);
                lemma_or_keeps_mask(bits, f.spec_to_native(), 0x0003u32);
                assert(flags@.take(i + 1).drop_last() =~= flags@.take(i as int));
            }
            bits = bits | f.to_native();
            i = i + 1;
        }
        proof {
            assert(flags@.take(i as int) =~= flags@);
        }
        BlkidDevFlags { bits }
    }

    /// Convert this set to its native bit pattern.
    pub fn to_native(self) -> (r: i32)
        ensures
            r == self.bits(),
    {
        self.bits
    }

    /// Convert a native bit pattern into a flag set.  The conversion
    /// walks every bit position: it succeeds exactly when each set bit
    /// belongs to a known flag, and fails with a conversion error when
    /// any unknown bit is set, dropping nothing silently.
    pub fn try_from_native(v: i32) -> (r: Result<BlkidDevFlags, BlkidErr>)
        ensures
            v as u32 & !0x0003u32 == 0 ==> (r matches Ok(s) && s.bits() == v),
            v as u32 & !0x0003u32 != 0 ==> r == Err::<BlkidDevFlags, BlkidErr>(
                BlkidErr::InvalidConversion,
            ),
    {
        if known_bits_only(v as u32, 0x0003u32) {
            Ok(BlkidDevFlags { bits: v })
        } else {
            Err(BlkidErr::InvalidConversion)
        }
    }
}

/// Law: the blockdev-cache flag-set conversion is lossless.  If a native bit
/// pattern `v` is accepted, the resulting set `s` converts back to
/// exactly `v`, and converting that pattern again yields a set `t`
/// equal to `s`: no representable bit is dropped or added on the way.
pub proof fn lemma_dev_flags_round_trip(v: i32, s: BlkidDevFlags, t: BlkidDevFlags)
    requires
        v as u32 & !0x0003u32 == 0,
        s.bits() == v,
        t.bits() == s.bits(),
    ensures
        t == s,
        s.well_formed(),
{
}

/// The native bit pattern of a sequence of `BlkidUsageFlag` values, all ORed
/// together.
pub open spec fn or_usage_flags(s: Seq<BlkidUsageFlag>) -> i32
    decreases s.len(),
{
    if s.len() == 0 {
        0i32
    } else {
        or_usage_flags(s.drop_last()) | s.last().spec_to_native()
    }
}

/// Every `BlkidUsageFlag` constant lies inside the family's known mask.
proof fn lemma_usage_flags_in_mask(f: BlkidUsageFlag)
    ensures
        f.spec_to_native() as u32 & !0x001eu32 == 0,
{
    let v = f.spec_to_native();
    assert(v as u32 & !0x001eu32 == 0) by (bit_vector)
        requires
            v == 0x0002 || v == 0x0004 || v == 0x0008 || v == 0x0010,
    ;
}

/// Set of flags of type `BlkidUsageFlag`, held as its native bit pattern.
#[derive(Clone, Copy, Debug, PartialEq, Eq, Structural)]
pub struct BlkidUsageFlags {
    bits: i32,
}

impl BlkidUsageFlags {
    /// Native bit pattern held by this set.
    pub closed spec fn bits(self) -> i32 {
        self.bits
    }

    /// Every set bit of the native pattern belongs to a known flag.
    pub open spec fn well_formed(self) -> bool {
        self.bits() as u32 & !0x001eu32 == 0
    }

    /// Create an empty flag set.
    pub fn empty() -> (r: Self)
        ensures
            r.bits() == 0,
            r.well_formed(),
    {
        proof {
            lemma_zero_in_mask(0x001eu32);
        }
        BlkidUsageFlags { bits: 0 }
    }

    /// Create a flag set holding exactly the given flags.
    pub fn new(flags: Vec<BlkidUsageFlag>) -> (r: Self)
        ensures
            r.bits() == or_usage_flags(flags@),
            r.well_formed(),
    {
        let mut bits: i32 = 0;
        let mut i: usize = 0;
        proof {
            lemma_zero_in_mask(0x001eu32);
        }
        while i < flags.len()
            invariant
                i <= flags.len(),
                bits == or_usage_flags(flags@.take(i as int)),
                bits as u32 & !0x001eu32 == 0,
            decreases flags.len() - i,
        {
            let f = flags[i];
            proof {
                lemma_usage_flags_in_mask(f);
                lemma_or_keeps_mask(bits, f.spec_to_native(), 0x001eu32);
                assert(flags@.take(i + 1).drop_last() =~= flags@.take(i as int));
            }
            bits = bits | f.to_native();
            i = i + 1;
        }
        proof {
            assert(flags@.take(i as int) =~= flags@);
        }
        BlkidUsageFlags { bits }
    }

    /// Convert this set to its native bit pattern.
    pub fn to_native(self) -> (r: i32)
        ensures
            r == self.bits(),
    {
        self.bits
    }

    /// Convert a native bit pattern into a flag set.  The conversion
    /// walks every bit position: it succeeds exactly when each set bit
    /// belongs to a known flag, and fails with a conversion error when
    /// any unknown bit is set, dropping nothing silently.
    pub fn try_from_native(v: i32) -> (r: Result<BlkidUsageFlags, BlkidErr>)
        ensures
            v as u32 & !0x001eu32 == 0 ==> (r matches Ok(s) && s.bits() == v),
            v as u32 & !0x001eu32 != 0 ==> r == Err::<BlkidUsageFlags, BlkidErr>(
                BlkidErr::InvalidConversion,
            ),
    {
        if known_bits_only(v as u32, 0x001eu32) {
            Ok(BlkidUsageFlags { bits: v })
        } else {
            Err(BlkidErr::InvalidConversion)
        }
    }
}

/// Law: the usage flag-set conversion is lossless.  If a native bit
/// pattern `v` is accepted, the resulting set `s` converts back to
/// exactly `v`, and converting that pattern again yields a set `t`
/// equal to `s`: no representable bit is dropped or added on the way.
pub proof fn lemma_usage_flags_round_trip(v: i32, s: BlkidUsageFlags, t: BlkidUsageFlags)
    requires
        v as u32 & !0x001eu32 == 0,
        s.bits() == v,
        t.bits() == s.bits(),
    ensures
        t == s,
        s.well_formed(),
{
}

/// The native bit pattern of a sequence of `BlkidSublks` values, all ORed
/// together.
pub open spec fn or_sublks_flags(s: Seq<BlkidSublks>) -> i32
    decreases s.len(),
{
    if s.len() == 0 {
        0i32
    } else {
        or_sublks_flags(s.drop_last()) | s.last().spec_to_native()
    }
}

/// Every `BlkidSublks` constant lies inside the family's known mask.
proof fn lemma_sublks_flags_in_mask(f: BlkidSublks)
    ensures
        f.spec_to_native() as u32 & !0x07feu32 == 0,
{
    let v = f.spec_to_native();
    assert(v as u32 & !0x07feu32 == 0) by (bit_vector)
        requires
            v == 0x0002 || v == 0x0004 || v == 0x0008 || v == 0x0010 || v == 0x0020 || v == 0x0040 || v == 0x0080 || v == 0x0100 || v == 0x0200 || v == 0x0400 || v == 0x006a,
    ;
}

/// Set of flags of type `BlkidSublks`, held as its native bit pattern.
#[derive(Clone, Copy, Debug, PartialEq, Eq, Structural)]
pub struct BlkidSublksFlags {
    bits: i32,
}

impl BlkidSublksFlags {
    /// Native bit pattern held by this set.
    pub closed spec fn bits(self) -> i32 {
        self.bits
    }

    /// Every set bit of the native pattern belongs to a known flag.
    pub open spec fn well_formed(self) -> bool {
        self.bits() as u32 & !0x07feu32 == 0
    }

    /// Create an empty flag set.
    pub fn empty() -> (r: Self)
        ensures
            r.bits() == 0,
            r.well_formed(),
    {
        proof {
            lemma_zero_in_mask(0x07feu32);
        }
        BlkidSublksFlags { bits: 0 }
    }

    /// Create a flag set holding exactly the given flags.
    pub fn new(flags: Vec<BlkidSublks>) -> (r: Self)
        ensures
            r.bits() == or_sublks_flags(flags@),
            r.well_formed(),
    {
        let mut bits: i32 = 0;
        let mut i: usize = 0;
        proof {
            lemma_zero_in_mask(0x07feu32);
        }
        while i < flags.len()
            invariant
                i <= flags.len(),
                bits == or_sublks_flags(flags@.take(i as int)),
                bits as u32 & !0x07feu32 == 0,
            decreases flags.len() - i,
        {
            let f = flags[i];
            proof {
                lemma_sublks_flags_in_mask(f);
                lemma_or_keeps_mask(bits, f.spec_to_native(), 0x07feu32);
                assert(flags@.take(i + 1).drop_last() =~= flags@.take(i as int));
            }
            bits = bits | f.to_native();
            i = i + 1;
        }
        proof {
            assert(flags@.take(i as int) =~= flags@);
        }
        BlkidSublksFlags { bits }
    }

    /// Convert this set to its native bit pattern.
    pub fn to_native(self) -> (r: i32)
        ensures
            r == self.bits(),
    {
        self.bits
    }

    /// Convert a native bit pattern into a flag set.  The conversion
    /// walks every bit position: it succeeds exactly when each set bit
    /// belongs to a known flag, and fails with a conversion error when
    /// any unknown bit is set, dropping nothing silently.
    pub fn try_from_native(v: i32) -> (r: Result<BlkidSublksFlags, BlkidErr>)
        ensures
            v as u32 & !0x07feu32 == 0 ==> (r matches Ok(s) && s.bits() == v),
            v as u32 & !0x07feu32 != 0 ==> r == Err::<BlkidSublksFlags, BlkidErr>(
                BlkidErr::InvalidConversion,
            ),
    {
        if known_bits_only(v as u32, 0x07feu32) {
            Ok(BlkidSublksFlags { bits: v })
        } else {
            Err(BlkidErr::InvalidConversion)
        }
    }
}

/// Law: the superblock-probing flag-set conversion is lossless.  If a native bit
/// pattern `v` is accepted, the resulting set `s` converts back to
/// exactly `v`, and converting that pattern again yields a set `t`
/// equal to `s`: no representable bit is dropped or added on the way.
pub proof fn lemma_sublks_flags_round_trip(v: i32, s: BlkidSublksFlags, t: BlkidSublksFlags)
    requires
        v as u32 & !0x07feu32 == 0,
        s.bits() == v,
        t.bits() == s.bits(),
    ensures
        t == s,
        s.well_formed(),
{
}

/// The native bit pattern of a sequence of `BlkidProbreqFlag` values, all ORed
/// together.
pub open spec fn or_probreq_flags(s: Seq<BlkidProbreqFlag>) -> i32
    decreases s.len(),
{
    if s.len() == 0 {
        0i32
    } else {
        or_probreq_flags(s.drop_last()) | s.last().spec_to_native()
    }
}

/// Every `BlkidProbreqFlag` constant lies inside the family's known mask.
proof fn lemma_probreq_flags_in_mask(f: BlkidProbreqFlag)
    ensures
        f.spec_to_native() as u32 & !0x01feu32 == 0,
{
    let v = f.spec_to_native();
    assert(v as u32 & !0x01feu32 == 0) by (bit_vector)
        requires
            v == 0x0002 || v == 0x0004 || v == 0x0008 || v == 0x0010 || v == 0x0020 || v == 0x0040 || v == 0x0080 || v == 0x0100,
    ;
}

/// Set of flags of type `BlkidProbreqFlag`, held as its native bit pattern.
#[derive(Clone, Copy, Debug, PartialEq, Eq, Structural)]
pub struct BlkidProbreqFlags {
    bits: i32,
}

impl BlkidProbreqFlags {
    /// Native bit pattern held by this set.
    pub closed spec fn bits(self) -> i32 {
        self.bits
    }

    /// Every set bit of the native pattern belongs to a known flag.
    pub open spec fn well_formed(self) -> bool {
        self.bits() as u32 & !0x01feu32 == 0
    }

    /// Create an empty flag set.
    pub fn empty() -> (r: Self)
        ensures
            r.bits() == 0,
            r.well_formed(),
    {
        proof {
            lemma_zero_in_mask(0x01feu32);
        }
        BlkidProbreqFlags { bits: 0 }
    }

    /// Create a flag set holding exactly the given flags.
    pub fn new(flags: Vec<BlkidProbreqFlag>) -> (r: Self)
        ensures
            r.bits() == or_probreq_flags(flags@),
            r.well_formed(),
    {
        let mut bits: i32 = 0;
        let mut i: usize = 0;
        proof {
            lemma_zero_in_mask(0x01feu32);
        }
        while i < flags.len()
            invariant
                i <= flags.len(),
                bits == or_probreq_flags(flags@.take(i as int)),
                bits as u32 & !0x01feu32 == 0,
            decreases flags.len() - i,
        {
            let f = flags[i];
            proof {
                lemma_probreq_flags_in_mask(f);
                lemma_or_keeps_mask(bits, f.spec_to_native(), 0x01feu32);
                assert(flags@.take(i + 1).drop_last() =~= flags@.take(i as int));
            }
            bits = bits | f.to_native();
            i = i + 1;
        }
        proof {
            assert(flags@.take(i as int) =~= flags@);
        }
        BlkidProbreqFlags { bits }
    }

    /// Convert this set to its native bit pattern.
    pub fn to_native(self) -> (r: i32)
        ensures
            r == self.bits(),
    {
        self.bits
    }

    /// Convert a native bit pattern into a flag set.  The conversion
    /// walks every bit position: it succeeds exactly when each set bit
    /// belongs to a known flag, and fails with a conversion error when
    /// any unknown bit is set, dropping nothing silently.
    pub fn try_from_native(v: i32) -> (r: Result<BlkidProbreqFlags, BlkidErr>)
        ensures
            v as u32 & !0x01feu32 == 0 ==> (r matches Ok(s) && s.bits() == v),
            v as u32 & !0x01feu32 != 0 ==> r == Err::<BlkidProbreqFlags, BlkidErr>(
                BlkidErr::InvalidConversion,
            ),
    {
        if known_bits_only(v as u32, 0x01feu32) {
            Ok(BlkidProbreqFlags { bits: v })
        } else {
            Err(BlkidErr::InvalidConversion)
        }
    }
}

/// Law: the probe-request flag-set conversion is lossless.  If a native bit
/// pattern `v` is accepted, the resulting set `s` converts back to
/// exactly `v`, and converting that pattern again yields a set `t`
/// equal to `s`: no representable bit is dropped or added on the way.
pub proof fn lemma_probreq_flags_round_trip(v: i32, s: BlkidProbreqFlags, t: BlkidProbreqFlags)
    requires
        v as u32 & !0x01feu32 == 0,
        s.bits() == v,
        t.bits() == s.bits(),
    ensures
        t == s,
        s.well_formed(),
{
}

} // verus!
