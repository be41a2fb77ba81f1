//! The record store: a durable map from identifiers to records.

use crate::codec::{lemma_record_len, lemma_record_of_bytes, record_of};
use crate::product::{ProductPayload, ProductView, VeganProduct};
use crate::stable::{
    map_entries, map_first_key_from, map_get, map_init, map_insert, map_into_region, map_region,
    map_remove, RecordMap, Region,
};
use vstd::prelude::*;

verus! {

/// Whether every entry of a map is the stored form of a record.
pub open spec fn all_records(entries: Map<u64, Seq<u8>>) -> bool {
    forall|id: u64| #[trigger] entries.contains_key(id) ==> record_of(entries[id]) is Some
}

/// The records that the entries of a map are the stored forms of.
pub open spec fn records_of(entries: Map<u64, Seq<u8>>) -> Map<u64, ProductView> {
    Map::new(|id: u64| entries.contains_key(id), |id: u64| record_of(entries[id])->0)
}

/// A durable map from identifiers to records.
pub struct RecordStore {
    map: RecordMap,
}

impl View for RecordStore {
    type V = Map<u64, ProductView>;

    /// The records in the store, each under its identifier.
    closed spec fn view(&self) -> Map<u64, ProductView> {
        records_of(map_entries(self.map))
    }
}

impl RecordStore {
    /// Every entry of the map behind the store is the stored form of a
    /// record.
    pub closed spec fn wf(&self) -> bool {
        all_records(map_entries(self.map))
    }

    /// Opens the store kept in `region`, which stays its region. A region
    /// that holds no store yet gets an empty one. `None` where an entry of the
    /// region is not the stored form of a record.
    pub fn open(region: Region) -> (store: Option<RecordStore>)
        ensures
            store matches Some(s) ==> s.wf() && s.region() == region,
    {
        RecordStore::from_map(map_init(region))
    }

    /// Gives up the store for the region it is kept in, where its records
    /// stay.
    pub fn close(self) -> (region: Region)
        ensures
            region == self.region(),
    {
        map_into_region(self.map)
    }

    /// The region that the store is kept in.
    pub closed spec fn region(&self) -> Region {
        map_region(self.map)
    }

    /// Makes a store of a map, after reading every entry of it: `None` where
    /// one of them is not the stored form of a record.
    pub fn from_map(map: RecordMap) -> (store: Option<RecordStore>)
        ensures
            store is Some <==> all_records(map_entries(map)),
            store matches Some(s) ==> s.wf() && s@ == records_of(map_entries(map)) && s.region()
                == map_region(map),
    {
        let ghost entries = map_entries(map);
        let mut from: u64 = 0;
        let mut done = false;
        while !done
            invariant
                entries == map_entries(map),
                forall|id: u64|
                    (id < from || done) && #[trigger] entries.contains_key(id) ==> record_of(
                        entries[id],
                    ) is Some,
            decreases (if done { 0 } else { 1 + u64::MAX - from }),
        {
            match map_first_key_from(&map, from) {
                None => {
                    done = true;
                },
                Some(id) => {
                    let stored = match map_get(&map, id) {
                        Some(bytes) => VeganProduct::from_bytes(bytes.as_slice()),
                        None => None,
                    };
                    if stored.is_none() {
                        assert(entries.contains_key(id));
                        return None;
                    }
                    if id == u64::MAX {
                        done = true;
                    } else {
                        from = id + 1;
                    }
                },
            }
        }
        Some(RecordStore { map })
    }

    /// The least identifier in use that is not below `from`.
    pub fn first_id_from(&self, from: u64) -> (id: Option<u64>)
        ensures
            id matches Some(least) ==> from <= least && self@.contains_key(least),
            id matches Some(least) ==> forall|other: u64|
                from <= other < least ==> !self@.contains_key(other),
            id is None ==> forall|other: u64| from <= other ==> !self@.contains_key(other),
    {
        map_first_key_from(&self.map, from)
    }

    /// The record under `id`, if there is one. Nothing changes.
    pub fn get(&self, id: u64) -> (record: Option<VeganProduct>)
        requires
            self.wf(),
        ensures
            record is Some <==> self@.contains_key(id),
            record matches Some(p) ==> p@ == self@[id] && p@.fits(),
    {
        match map_get(&self.map, id) {
            None => None,
            Some(bytes) => {
                let record = VeganProduct::from_bytes(bytes.as_slice());
                proof {
                    if record is Some {
                        lemma_record_len(record->0@);
                    }
                }
                record
            },
        }
    }

    /// Puts `record` under `id`, over whatever was there.
    pub fn insert(&mut self, id: u64, record: &VeganProduct)
        requires
            old(self).wf(),
            record@.fits(),
        ensures
            final(self).wf(),
            final(self)@ == old(self)@.insert(id, record@),
            final(self).region() == old(self).region(),
    {
        proof {
            lemma_record_len(record@);
            lemma_record_of_bytes(record@);
        }
        let bytes = record.to_bytes();
        map_insert(&mut self.map, id, bytes.as_slice());
        proof {
            assert(self@ =~= old(self)@.insert(id, record@));
        }
    }

    /// Where there is a record under `id`: gives it the payload's name,
    /// description, price and seller, marks it as updated at `now`, and hands
    /// back the new state. Where there is none, nothing changes.
    pub fn update_in_place(&mut self, id: u64, payload: ProductPayload, now: u64) -> (record:
        Option<VeganProduct>)
        requires
            old(self).wf(),
            payload@.fits(),
        ensures
            final(self).wf(),
            record is Some <==> old(self)@.contains_key(id),
            record matches Some(p) ==> p@ == old(self)@[id].revised(payload@, now) && final(self)@
                == old(self)@.insert(id, p@),
            record is None ==> final(self)@ == old(self)@,
            final(self).region() == old(self).region(),
    {
        match self.get(id) {
            None => None,
            Some(mut product) => {
                product.name = payload.name;
                product.description = payload.description;
                product.price = payload.price;
                product.seller = payload.seller;
                product.updated_at = Some(now);
                self.insert(id, &product);
                Some(product)
            },
        }
    }

    /// Where there is a record under `id`: switches its availability, marks it
    /// as updated at `now`, and hands back the new state. Where there is none,
    /// nothing changes.
    pub fn toggle(&mut self, id: u64, now: u64) -> (record: Option<VeganProduct>)
        requires
            old(self).wf(),
        ensures
            final(self).wf(),
            record is Some <==> old(self)@.contains_key(id),
            record matches Some(p) ==> p@ == old(self)@[id].toggled(now) && final(self)@ == old(
                self,
            )@.insert(id, p@),
            record is None ==> final(self)@ == old(self)@,
            final(self).region() == old(self).region(),
    {
        match self.get(id) {
            None => None,
            Some(mut product) => {
                product.availability = !product.availability;
                product.updated_at = Some(now);
                self.insert(id, &product);
                Some(product)
            },
        }
    }

    /// Takes the record under `id` out of the store and hands back its last
    /// state, if there was one.
    pub fn remove(&mut self, id: u64) -> (record: Option<VeganProduct>)
        requires
            old(self).wf(),
        ensures
            final(self).wf(),
            record is Some <==> old(self)@.contains_key(id),
            record matches Some(p) ==> p@ == old(self)@[id],
            final(self)@ == old(self)@.remove(id),
            final(self).region() == old(self).region(),
    {
        let removed = map_remove(&mut self.map, id);
        proof {
            assert(self@ =~= old(self)@.remove(id));
        }
        match removed {
            None => None,
            Some(bytes) => {
                VeganProduct::from_bytes(bytes.as_slice())
            },
        }
    }
}

} // verus!
