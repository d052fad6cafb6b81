//! Deprecated filter operations, kept because the native library still
//! offers them; each is the older spelling of a superblock-filter
//! operation and translates its outcome the same way.

use vstd::prelude::*;

use crate::consts::{BlkidProbreqFlags, BlkidUsageFlags};
use crate::err::BlkidErr;
use crate::probe::{after_configure, all_names_nul_free, check_names, BlkidProbe};

verus! {

impl BlkidProbe {
    /// Deprecated spelling of `filter_superblock_usage`, taking request
    /// flags instead of a filter direction.
    pub fn filter_usage(&mut self, flags: BlkidProbreqFlags, usage: BlkidUsageFlags, status: i32)
        -> (r: Result<(), BlkidErr>)
        ensures
            status == 0 ==> r == Ok::<(), BlkidErr>(()) && final(self).spec_state()
                == after_configure(old(self).spec_state()),
            status != 0 ==> *final(self) == *old(self),
            status < 0 ==> r == Err::<(), BlkidErr>(BlkidErr::NativeFailure),
            status > 0 ==> r == Err::<(), BlkidErr>(BlkidErr::UnexpectedPositiveCode),
    {
        let _ = flags;
        let _ = usage;
        self.configure(status)
    }

    /// Deprecated spelling of `filter_superblock_type`, taking request
    /// flags instead of a filter direction.  A name holding an embedded
    /// null byte fails with a conversion error before any native call
    /// can be issued.
    pub fn filter_types(
        &mut self,
        flags: BlkidProbreqFlags,
        names: &Vec<String>,
        status: Option<i32>,
    ) -> (r: Result<(), BlkidErr>)
        requires
            all_names_nul_free(names@) ==> status is Some,
        ensures
            !all_names_nul_free(names@) ==> r == Err::<(), BlkidErr>(BlkidErr::InvalidConversion)
                && *final(self) == *old(self),
            all_names_nul_free(names@) ==> (match status {
                Some(c) => (if c == 0 {
                    r == Ok::<(), BlkidErr>(()) && final(self).spec_state() == after_configure(
                        old(self).spec_state(),
                    )
                } else if c < 0 {
                    r == Err::<(), BlkidErr>(BlkidErr::NativeFailure) && *final(self) == *old(self)
                } else {
                    r == Err::<(), BlkidErr>(BlkidErr::UnexpectedPositiveCode) && *final(self)
                        == *old(self)
                }),
                None => true,
            }),
    {
        let _ = flags;
        if !check_names(names) {
            return Err(BlkidErr::InvalidConversion);
        }
        match status {
            Some(c) => self.configure(c),
            None => Err(BlkidErr::InvalidConversion),
        }
    }

    /// Deprecated spelling of `invert_superblock_filter`.
    pub fn invert_filter(&mut self, status: i32) -> (r: Result<(), BlkidErr>)
        ensures
            status == 0 ==> r == Ok::<(), BlkidErr>(()) && final(self).spec_state()
                == after_configure(old(self).spec_state()),
            status != 0 ==> *final(self) == *old(self),
            status < 0 ==> r == Err::<(), BlkidErr>(BlkidErr::NativeFailure),
            status > 0 ==> r == Err::<(), BlkidErr>(BlkidErr::UnexpectedPositiveCode),
    {
        self.configure(status)
    }

    /// Deprecated spelling of `reset_superblock_filter`.
    pub fn reset_filter(&mut self, status: i32) -> (r: Result<(), BlkidErr>)
        ensures
            status == 0 ==> r == Ok::<(), BlkidErr>(()) && final(self).spec_state()
                == after_configure(old(self).spec_state()),
            status != 0 ==> *final(self) == *old(self),
            status < 0 ==> r == Err::<(), BlkidErr>(BlkidErr::NativeFailure),
            status > 0 ==> r == Err::<(), BlkidErr>(BlkidErr::UnexpectedPositiveCode),
    {
        self.configure(status)
    }
}

} // verus!
