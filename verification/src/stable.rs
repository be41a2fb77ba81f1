//! The stable structures that hold the catalog's state.
//!
//! Everything in this module is believed, not proved: each function is a thin
//! call into `ic_stable_structures`, and its contract restates what that
//! crate's source says of the call.
//!
//! What a memory holds cannot be seen from here, so nothing is claimed of a
//! structure that was just opened, and no `requires` can keep away a memory
//! that the crate gives up on: one laid out by a version of the crate that it
//! does not know, or for values of other sizes. The crate aborts on such a
//! memory when it is opened, and so do the three functions that open one.
//! Nor is memory that runs out while a structure grows spoken of.

use ic_stable_structures::memory_manager::{MemoryId, MemoryManager, VirtualMemory};
use ic_stable_structures::storable::Blob;
use ic_stable_structures::{Cell, DefaultMemoryImpl, StableBTreeMap};
use vstd::prelude::*;

verus! {

/// The most bytes that the stored form of one record may take.
pub const MAX_RECORD_BYTES: usize = 2048;

/// A memory manager over the default memory: the stable memory of a canister,
/// a fresh vector anywhere else.
#[verifier::external_body]
pub struct MemoryRegions {
    manager: MemoryManager<DefaultMemoryImpl>,
}

/// One region of that memory, for one structure to live in.
#[verifier::external_body]
pub struct Region {
    memory: VirtualMemory<DefaultMemoryImpl>,
}

/// A stable cell that holds one `u64`.
#[verifier::external_body]
pub struct IdCell {
    cell: Cell<u64, VirtualMemory<DefaultMemoryImpl>>,
}

/// A stable B-tree map from `u64` keys to byte strings of bounded length.
#[verifier::external_body]
pub struct RecordMap {
    map: StableBTreeMap<u64, Blob<MAX_RECORD_BYTES>, VirtualMemory<DefaultMemoryImpl>>,
}

/// The region with a given number among those of a manager.
pub uninterp spec fn region_of(regions: MemoryRegions, number: u8) -> Region;

/// The number that a cell holds.
pub uninterp spec fn cell_value(cell: IdCell) -> u64;

/// The region that a cell is kept in.
pub uninterp spec fn cell_region(cell: IdCell) -> Region;

/// The region that a map is kept in.
pub uninterp spec fn map_region(map: RecordMap) -> Region;

/// The entries that a map holds: each key with the bytes stored under it.
pub uninterp spec fn map_entries(map: RecordMap) -> Map<u64, Seq<u8>>;

/// `MemoryManager::init` on `DefaultMemoryImpl::default()`: the manager that
/// the memory holds, or a new one where it holds none.
#[verifier::external_body]
pub(crate) fn regions_init() -> MemoryRegions {
    MemoryRegions { manager: MemoryManager::init(DefaultMemoryImpl::default()) }
}

/// `MemoryManager::get`: the region of the manager's memory with this number.
/// `MemoryId::new` refuses 255, so that number is left out. Two regions with
/// the same number are the same memory: the callers ask for each number once.
#[verifier::external_body]
pub(crate) fn region_get(regions: &MemoryRegions, number: u8) -> (region: Region)
    requires
        number < 255,
    ensures
        region == region_of(*regions, number),
{
    Region { memory: regions.manager.get(MemoryId::new(number)) }
}

/// `Cell::init`: the cell that the region holds, or a new one with `initial`
/// where it holds none; either way the cell keeps the region it was given.
/// `None` stands for the crate's `InitError`. Nothing is said of the value:
/// it is what the region held.
#[verifier::external_body]
pub(crate) fn cell_init(region: Region, initial: u64) -> (cell: Option<IdCell>)
    ensures
        cell matches Some(c) ==> cell_region(c) == region,
{
    Cell::init(region.memory, initial).ok().map(|cell| IdCell { cell })
}

/// `Cell::into_memory`: gives up the cell for the region it is kept in.
#[verifier::external_body]
pub(crate) fn cell_into_region(cell: IdCell) -> (region: Region)
    ensures
        region == cell_region(cell),
{
    Region { memory: cell.cell.into_memory() }
}

/// `Cell::get`: the value in the cell.
#[verifier::external_body]
pub(crate) fn cell_get(cell: &IdCell) -> (value: u64)
    ensures
        value == cell_value(*cell),
{
    *cell.cell.get()
}

/// `Cell::set`: writes `value` through to the cell's region, which stays the
/// cell's, and hands back the value it replaces. The crate reports an error
/// only when it has to grow the memory and cannot; an existing cell owns at
/// least one page, which eight bytes and the header never outgrow, so the call
/// succeeds.
#[verifier::external_body]
pub(crate) fn cell_set(cell: &mut IdCell, value: u64) -> (previous: u64)
    ensures
        previous == cell_value(*old(cell)),
        cell_value(*final(cell)) == value,
        cell_region(*final(cell)) == cell_region(*old(cell)),
{
    cell.cell.set(value).expect("a u64 fits the cell's first page")
}

/// `StableBTreeMap::init`: the map that the region holds, or an empty one
/// where it holds none; either way the map keeps the region it was given.
/// Nothing is said of the entries: they are what the region held.
#[verifier::external_body]
pub(crate) fn map_init(region: Region) -> (map: RecordMap)
    ensures
        map_region(map) == region,
{
    RecordMap { map: StableBTreeMap::init(region.memory) }
}

/// `StableBTreeMap::into_memory`: gives up the map for the region it is kept
/// in.
#[verifier::external_body]
pub(crate) fn map_into_region(map: RecordMap) -> (region: Region)
    ensures
        region == map_region(map),
{
    Region { memory: map.map.into_memory() }
}

/// `StableBTreeMap::get`: the bytes stored under `key`, if any. They come out
/// of a `Blob`, which never holds more than `MAX_RECORD_BYTES` bytes.
#[verifier::external_body]
pub(crate) fn map_get(map: &RecordMap, key: u64) -> (value: Option<Vec<u8>>)
    ensures
        value is Some <==> map_entries(*map).contains_key(key),
        value matches Some(bytes) ==> bytes@ == map_entries(*map)[key] && bytes@.len()
            <= MAX_RECORD_BYTES,
{
    map.map.get(&key).map(|blob| blob.as_slice().to_vec())
}

/// `StableBTreeMap::insert`: stores `value` under `key`, over whatever was
/// there, in the map's region, which stays the map's. A `Blob` takes at most
/// `MAX_RECORD_BYTES` bytes, so longer values are left out.
#[verifier::external_body]
pub(crate) fn map_insert(map: &mut RecordMap, key: u64, value: &[u8])
    requires
        value@.len() <= MAX_RECORD_BYTES,
    ensures
        map_entries(*final(map)) == map_entries(*old(map)).insert(key, value@),
        map_region(*final(map)) == map_region(*old(map)),
{
    let blob = Blob::try_from(value).expect("the value fits a blob");
    map.map.insert(key, blob);
}

/// `StableBTreeMap::remove`: takes the entry under `key` out of the map and
/// hands back its bytes, if there was one. The map's region stays the map's.
#[verifier::external_body]
pub(crate) fn map_remove(map: &mut RecordMap, key: u64) -> (value: Option<Vec<u8>>)
    ensures
        map_entries(*final(map)) == map_entries(*old(map)).remove(key),
        map_region(*final(map)) == map_region(*old(map)),
        value is Some <==> map_entries(*old(map)).contains_key(key),
        value matches Some(bytes) ==> bytes@ == map_entries(*old(map))[key],
{
    map.map.remove(&key).map(|blob| blob.as_slice().to_vec())
}

/// The first item of `StableBTreeMap::range` from `start` on: the map walks
/// its keys in ascending order, so this is the least key that is not below
/// `start`.
#[verifier::external_body]
pub(crate) fn map_first_key_from(map: &RecordMap, start: u64) -> (key: Option<u64>)
    ensures
        key matches Some(k) ==> start <= k && map_entries(*map).contains_key(k),
        key matches Some(k) ==> forall|j: u64| start <= j < k ==> !map_entries(*map).contains_key(j),
        key is None ==> forall|j: u64| start <= j ==> !map_entries(*map).contains_key(j),
{
    map.map.range(start..).next().map(|(key, _)| key)
}

} // verus!
