//! The catalog: the operations that callers see.

use crate::counter::IdCounter;
use crate::error::Error;
use crate::model::{outcome, CatalogView};
use crate::product::{ProductPayload, VeganProduct};
use crate::storage::Storage;
use crate::store::RecordStore;
use vstd::prelude::*;

verus! {

/// A catalog of products: a counter that issues identifiers and a store that
/// holds the records, both durable.
pub struct Catalog {
    counter: IdCounter,
    store: RecordStore,
}

impl View for Catalog {
    type V = CatalogView;

    closed spec fn view(&self) -> CatalogView {
        CatalogView { next_id: self.counter@, records: self.store@ }
    }
}

impl Catalog {
    /// The store is well formed and the state is consistent: every record is
    /// under its own identifier, and every identifier in use is below the
    /// next one.
    pub closed spec fn wf(&self) -> bool {
        self.store.wf() && self@.consistent()
    }

    /// The state of a well-formed catalog is consistent.
    pub proof fn lemma_consistent(&self)
        requires
            self.wf(),
        ensures
            self@.consistent(),
    {
    }

    /// Opens the catalog kept in `storage`, which stays its memory: the
    /// counter in the one region, the records in the other. Memory that holds
    /// no catalog yet gets an empty one whose first identifier is zero. `None`
    /// where the memory cannot be used or what it holds is not a consistent
    /// catalog.
    pub fn open(storage: Storage) -> (catalog: Option<Catalog>)
        ensures
            catalog matches Some(c) ==> c.wf() && c.storage() == storage,
    {
        let (counter_region, records_region) = storage.split();
        let counter = match IdCounter::open(counter_region) {
            Some(counter) => counter,
            None => {
                return None;
            },
        };
        let store = match RecordStore::open(records_region) {
            Some(store) => store,
            None => {
                return None;
            },
        };
        Catalog::assemble(counter, store)
    }

    /// Gives up the catalog for the memory it is kept in, where its state
    /// stays.
    pub fn close(self) -> (storage: Storage)
        ensures
            storage == self.storage(),
    {
        Storage::join(self.counter.close(), self.store.close())
    }

    /// The memory that the catalog is kept in.
    pub closed spec fn storage(&self) -> Storage {
        Storage::joined(self.counter.region(), self.store.region())
    }

    /// Makes a catalog of a counter and a store, after reading every record:
    /// `None` where a record is under another identifier than its own, or
    /// under one that the counter has not issued yet.
    pub fn assemble(counter: IdCounter, store: RecordStore) -> (catalog: Option<Catalog>)
        requires
            store.wf(),
        ensures
            catalog is Some <==> (CatalogView { next_id: counter@, records: store@ }).consistent(),
            catalog matches Some(c) ==> c.wf() && c@ == (CatalogView {
                next_id: counter@,
                records: store@,
            }) && c.storage() == Storage::joined(counter.region(), store.region()),
    {
        let next_id: u64 = counter.peek();
        let ghost state = CatalogView { next_id: counter@, records: store@ };
        let mut from: u64 = 0;
        let mut done = false;
        while !done
            invariant
                store.wf(),
                next_id == counter@,
                state == (CatalogView { next_id: counter@, records: store@ }),
                forall|id: u64|
                    (id < from || done) && #[trigger] state.records.contains_key(id)
                        ==> state.records[id].id == id && id < state.next_id,
            decreases (if done { 0 } else { 1 + u64::MAX - from }),
        {
            match store.first_id_from(from) {
                None => {
                    done = true;
                },
                Some(id) => {
                    let sound = match store.get(id) {
                        Some(product) => product.id == id && id < next_id,
                        None => false,
                    };
                    if !sound {
                        assert(state.records.contains_key(id));
                        return None;
                    }
                    if id == u64::MAX {
                        done = true;
                    } else {
                        from = id + 1;
                    }
                },
            }
        }
        Some(Catalog { counter, store })
    }

    /// The identifier that the next new product gets.
    pub fn next_id(&self) -> (id: u64)
        ensures
            id == self@.next_id,
    {
        self.counter.peek()
    }

    /// The product under `id`.
    pub fn get_product(&self, id: u64) -> (result: Result<VeganProduct, Error>)
        requires
            self.wf(),
        ensures
            outcome(result) == self@.get(id),
    {
        match self.store.get(id) {
            Some(product) => Ok(product),
            None => Err(Error::NotFound { id }),
        }
    }

    /// Adds a product at time `now`: it gets the next identifier, is
    /// available and has never been updated. Hands back the new record.
    pub fn add_product(&mut self, payload: ProductPayload, now: u64) -> (product: VeganProduct)
        requires
            old(self).wf(),
            old(self)@.next_id < u64::MAX,
            payload@.fits(),
        ensures
            final(self).wf(),
            product@ == old(self)@.created(payload@, now),
            final(self)@ == old(self)@.add(payload@, now),
            final(self).storage() == old(self).storage(),
    {
        let id: u64 = self.counter.next_id();
        let product = VeganProduct {
            id,
            name: payload.name,
            description: payload.description,
            price: payload.price,
            seller: payload.seller,
            availability: true,
            created_at: now,
            updated_at: None,
        };
        self.store.insert(id, &product);
        product
    }

    /// Gives the product under `id` the payload's name, description, price
    /// and seller, and marks it as updated at `now`. Hands back the new state
    /// of the record.
    pub fn update_product(&mut self, id: u64, payload: ProductPayload, now: u64) -> (result: Result<
        VeganProduct,
        Error,
    >)
        requires
            old(self).wf(),
            payload@.fits(),
        ensures
            final(self).wf(),
            final(self)@ == old(self)@.update(id, payload@, now),
            outcome(result) == final(self)@.get(id),
            final(self).storage() == old(self).storage(),
    {
        match self.store.update_in_place(id, payload, now) {
            Some(product) => Ok(product),
            None => Err(Error::NotFound { id }),
        }
    }

    /// Deletes the product under `id` and hands back its last state. The
    /// identifier is not issued again.
    pub fn delete_product(&mut self, id: u64) -> (result: Result<VeganProduct, Error>)
        requires
            old(self).wf(),
        ensures
            final(self).wf(),
            final(self)@ == old(self)@.delete(id),
            outcome(result) == old(self)@.get(id),
            final(self).storage() == old(self).storage(),
    {
        match self.store.remove(id) {
            Some(product) => Ok(product),
            None => Err(Error::NotFound { id }),
        }
    }

    /// Switches the availability of the product under `id` and marks it as
    /// updated at `now`. Hands back the new state of the record.
    pub fn toggle_availability(&mut self, id: u64, now: u64) -> (result: Result<
        VeganProduct,
        Error,
    >)
        requires
            old(self).wf(),
        ensures
            final(self).wf(),
            final(self)@ == old(self)@.toggle(id, now),
            outcome(result) == final(self)@.get(id),
            final(self).storage() == old(self).storage(),
    {
        match self.store.toggle(id, now) {
            Some(product) => Ok(product),
            None => Err(Error::NotFound { id }),
        }
    }
}

} // verus!
