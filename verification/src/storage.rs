//! The memory that the catalog's state is kept in, and how it is divided.

use crate::stable::{region_get, region_of, regions_init, MemoryRegions, Region};
use vstd::prelude::*;

verus! {

/// The number of the region that holds the identifier counter.
pub const COUNTER_REGION: u8 = 0;

/// The number of the region that holds the records.
pub const RECORDS_REGION: u8 = 1;

/// The memory behind a catalog: one region for the counter and one for the
/// records.
///
/// In a canister this is its stable memory, which outlives every call and
/// every upgrade; it is to be opened once, since a second `Storage` would be
/// the same memory under another name. Elsewhere each `Storage` is a memory of
/// its own, empty when opened, that lives as long as a value holds it.
pub struct Storage {
    counter: Region,
    records: Region,
}

impl Storage {
    /// Opens the memory, with whatever it holds: the regions for the counter
    /// and for the records are the two of one manager that have their
    /// numbers.
    pub fn open() -> (storage: Storage)
        ensures
            exists|regions: MemoryRegions|
                storage == Storage::joined(
                    #[trigger] region_of(regions, COUNTER_REGION),
                    region_of(regions, RECORDS_REGION),
                ),
    {
        let regions = regions_init();
        let storage = Storage {
            counter: region_get(&regions, COUNTER_REGION),
            records: region_get(&regions, RECORDS_REGION),
        };
        assert(storage == Storage::joined(
            region_of(regions, COUNTER_REGION),
            region_of(regions, RECORDS_REGION),
        ));
        storage
    }

    /// The storage made of a region for the counter and a region for the
    /// records.
    pub closed spec fn joined(counter: Region, records: Region) -> Storage {
        Storage { counter, records }
    }

    /// The region for the counter.
    pub closed spec fn counter_region(self) -> Region {
        self.counter
    }

    /// The region for the records.
    pub closed spec fn records_region(self) -> Region {
        self.records
    }

    /// Makes a storage of a region for the counter and a region for the
    /// records.
    pub fn join(counter: Region, records: Region) -> (storage: Storage)
        ensures
            storage == Storage::joined(counter, records),
            storage.counter_region() == counter,
            storage.records_region() == records,
    {
        Storage { counter, records }
    }

    /// The region for the counter and the region for the records, in this
    /// order.
    pub fn split(self) -> (regions: (Region, Region))
        ensures
            regions.0 == self.counter_region(),
            regions.1 == self.records_region(),
            self == Storage::joined(regions.0, regions.1),
    {
        (self.counter, self.records)
    }
}

} // verus!
