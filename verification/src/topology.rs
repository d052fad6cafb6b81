//! Topology: the I/O geometry of a block device.
//!
//! A topology value is a non-owning view into state held by the probe
//! that produced it, and each native read of the topology overwrites the
//! same internal storage; the model therefore carries the five geometry
//! values as one snapshot, taken when the probe handed the view out.

use vstd::prelude::*;

verus! {

/// A snapshot of the I/O geometry the native library reported.
#[derive(Clone, Copy, Debug, PartialEq, Eq, Structural)]
pub struct BlkidTopology {
    alignment_offset: u64,
    minimum_io_size: u64,
    optimal_io_size: u64,
    logical_sector_size: u64,
    physical_sector_size: u64,
}

impl BlkidTopology {
    /// The alignment offset held.
    pub closed spec fn spec_alignment_offset(self) -> u64 {
        self.alignment_offset
    }

    /// The minimum I/O size held.
    pub closed spec fn spec_minimum_io_size(self) -> u64 {
        self.minimum_io_size
    }

    /// The optimal I/O size held.
    pub closed spec fn spec_optimal_io_size(self) -> u64 {
        self.optimal_io_size
    }

    /// The logical sector size held.
    pub closed spec fn spec_logical_sector_size(self) -> u64 {
        self.logical_sector_size
    }

    /// The physical sector size held.
    pub closed spec fn spec_physical_sector_size(self) -> u64 {
        self.physical_sector_size
    }

    /// Bundle one native read of the five geometry values.
    pub fn new(
        alignment_offset: u64,
        minimum_io_size: u64,
        optimal_io_size: u64,
        logical_sector_size: u64,
        physical_sector_size: u64,
    ) -> (r: Self)
        ensures
            r.spec_alignment_offset() == alignment_offset,
            r.spec_minimum_io_size() == minimum_io_size,
            r.spec_optimal_io_size() == optimal_io_size,
            r.spec_logical_sector_size() == logical_sector_size,
            r.spec_physical_sector_size() == physical_sector_size,
    {
        BlkidTopology {
            alignment_offset,
            minimum_io_size,
            optimal_io_size,
            logical_sector_size,
            physical_sector_size,
        }
    }

    /// Get the alignment offset.
    pub fn get_alignment_offset(&self) -> (r: u64)
        ensures
            r == self.spec_alignment_offset(),
    {
        self.alignment_offset
    }

    /// Get the minimum size of an I/O operation.
    pub fn get_minimum_io_size(&self) -> (r: u64)
        ensures
            r == self.spec_minimum_io_size(),
    {
        self.minimum_io_size
    }

    /// Get the optimal size of an I/O operation.
    pub fn get_optimal_io_size(&self) -> (r: u64)
        ensures
            r == self.spec_optimal_io_size(),
    {
        self.optimal_io_size
    }

    /// Get the size of a logical sector.
    pub fn get_logical_sector_size(&self) -> (r: u64)
        ensures
            r == self.spec_logical_sector_size(),
    {
        self.logical_sector_size
    }

    /// Get the size of a physical sector.
    pub fn get_physical_sector_size(&self) -> (r: u64)
        ensures
            r == self.spec_physical_sector_size(),
    {
        self.physical_sector_size
    }
}

} // verus!
