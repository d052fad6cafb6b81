//! Safe, verified core of a binding layer over a native block-device
//! identification library.
//!
//! The native library is reached through raw foreign calls that this crate
//! cannot make itself; instead, every operation's *logic* lives here: the
//! translation of native return conventions into one closed error taxonomy,
//! the conversion tables between typed flag sets and native bit patterns,
//! string validation and encoding, and the session state machines for
//! probing, caching and iteration.  A thin unverified shell drives the
//! actual foreign calls and feeds their raw outcomes into the functions of
//! this crate.

mod cache;
/// Module containing all typed constants.
pub mod consts;
mod deprecated;
mod dev;
mod devno;
mod encode;
mod err;
mod partition;
mod probe;
mod tag;
mod topology;
mod utils;
mod version;

pub use uuid::Uuid;

pub use crate::cache::{BlkidCache, CacheOwnership, TagQuery};
pub use crate::consts::{
    BlkidDevFlag, BlkidDevFlags, BlkidFltr, BlkidFullprobeRet, BlkidProbeRet, BlkidProbreqFlag,
    BlkidProbreqFlags, BlkidSafeprobeRet, BlkidSublks, BlkidSublksFlags, BlkidUsageFlag,
    BlkidUsageFlags,
};
pub use crate::dev::{BlkidDev, BlkidDevIter, BlkidSize, DevStep};
pub use crate::devno::{maj_t, min_t, BlkidDevno};
pub use crate::encode::{encode_string, safe_string, to_native_text};
pub use crate::err::{
    translate_ptr, translate_status, translate_value, translate_value_wide, BlkidErr,
};
pub use crate::partition::{BlkidPartition, BlkidPartlist, BlkidParttable};
pub use crate::probe::{
    get_partition_name, get_superblock_name, is_known_fs_type, is_known_partition_type,
    BlkidProbe, LookupOutcome, ProbeState, ValueOutcome,
};
pub use crate::tag::{parse_tag_string, BlkidTagIter, TagStep};
pub use crate::topology::BlkidTopology;
pub use crate::utils::{evaluate_spec, evaluate_tag, send_uevent, BlkidBytes, BlkidSectors};
pub use crate::version::parse_version_string;

use vstd::prelude::*;

verus! {

/// Offset/size type used by the native library for byte counts.
#[allow(non_camel_case_types)]
pub type blkid_loff_t = i64;

} // verus!
