//! The catalog as contracts speak of it: the next identifier and a map from
//! identifiers to records, with each operation as a function on that state.

use crate::error::Error;
use crate::product::{PayloadView, ProductView, VeganProduct};
use vstd::prelude::*;

verus! {

impl ProductView {
    /// The record after an update at time `now`: the fields that a seller
    /// chooses come from the payload, the rest stays.
    pub open spec fn revised(self, payload: PayloadView, now: u64) -> ProductView {
        ProductView {
            name: payload.name,
            description: payload.description,
            price: payload.price,
            seller: payload.seller,
            updated_at: Some(now),
            ..self
        }
    }

    /// The record after its availability was switched at time `now`.
    pub open spec fn toggled(self, now: u64) -> ProductView {
        ProductView { availability: !self.availability, updated_at: Some(now), ..self }
    }
}

/// The state of a catalog.
pub struct CatalogView {
    /// The identifier that the next new product gets.
    pub next_id: u64,
    /// The products, each under its identifier.
    pub records: Map<u64, ProductView>,
}

impl CatalogView {
    /// Every record is stored under its own identifier, and every identifier
    /// in use was issued before: it is below the next one.
    pub open spec fn consistent(self) -> bool {
        forall|id: u64| #[trigger]
            self.records.contains_key(id) ==> self.records[id].id == id && id < self.next_id
    }

    /// What a lookup of `id` gives.
    pub open spec fn get(self, id: u64) -> Result<ProductView, Error> {
        if self.records.contains_key(id) {
            Ok(self.records[id])
        } else {
            Err(Error::NotFound { id })
        }
    }

    /// The record that a new product gets at time `now`.
    pub open spec fn created(self, payload: PayloadView, now: u64) -> ProductView {
        ProductView {
            id: self.next_id,
            name: payload.name,
            description: payload.description,
            price: payload.price,
            seller: payload.seller,
            availability: true,
            created_at: now,
            updated_at: None,
        }
    }

    /// The state after a product was added at time `now`.
    pub open spec fn add(self, payload: PayloadView, now: u64) -> CatalogView {
        CatalogView {
            next_id: (self.next_id + 1) as u64,
            records: self.records.insert(self.next_id, self.created(payload, now)),
        }
    }

    /// The state after an update of `id` at time `now`: unchanged where the
    /// catalog has no such product.
    pub open spec fn update(self, id: u64, payload: PayloadView, now: u64) -> CatalogView {
        if self.records.contains_key(id) {
            CatalogView {
                records: self.records.insert(id, self.records[id].revised(payload, now)),
                ..self
            }
        } else {
            self
        }
    }

    /// The state after the availability of `id` was switched at time `now`:
    /// unchanged where the catalog has no such product.
    pub open spec fn toggle(self, id: u64, now: u64) -> CatalogView {
        if self.records.contains_key(id) {
            CatalogView { records: self.records.insert(id, self.records[id].toggled(now)), ..self }
        } else {
            self
        }
    }

    /// The state after `id` was deleted.
    pub open spec fn delete(self, id: u64) -> CatalogView {
        CatalogView { records: self.records.remove(id), ..self }
    }
}

/// One change to a catalog.
pub enum Step {
    /// A product is added at time `now`.
    Add { payload: PayloadView, now: u64 },
    /// The product under `id` is updated at time `now`.
    Update { id: u64, payload: PayloadView, now: u64 },
    /// The availability of the product under `id` is switched at time `now`.
    Toggle { id: u64, now: u64 },
    /// The product under `id` is deleted.
    Delete { id: u64 },
}

impl Step {
    /// The record that the change is about: none for an addition, which
    /// makes a new one.
    pub open spec fn target(self) -> Option<u64> {
        match self {
            Step::Add { .. } => None,
            Step::Update { id, .. } => Some(id),
            Step::Toggle { id, .. } => Some(id),
            Step::Delete { id } => Some(id),
        }
    }

    /// The time at which the change is made: none for a deletion, which
    /// stamps nothing.
    pub open spec fn time(self) -> Option<u64> {
        match self {
            Step::Add { now, .. } => Some(now),
            Step::Update { now, .. } => Some(now),
            Step::Toggle { now, .. } => Some(now),
            Step::Delete { .. } => None,
        }
    }
}

impl CatalogView {
    /// The state after one change.
    pub open spec fn step(self, step: Step) -> CatalogView {
        match step {
            Step::Add { payload, now } => self.add(payload, now),
            Step::Update { id, payload, now } => self.update(id, payload, now),
            Step::Toggle { id, now } => self.toggle(id, now),
            Step::Delete { id } => self.delete(id),
        }
    }

    /// The state after a series of changes, made in order.
    pub open spec fn run(self, steps: Seq<Step>) -> CatalogView
        decreases steps.len(),
    {
        if steps.len() == 0 {
            self
        } else {
            self.run(steps.drop_last()).step(steps.last())
        }
    }

    /// The identifiers that the additions in a series of changes hand out, in
    /// order.
    pub open spec fn issued(self, steps: Seq<Step>) -> Seq<u64>
        decreases steps.len(),
    {
        if steps.len() == 0 {
            Seq::empty()
        } else if steps.last() is Add {
            self.issued(steps.drop_last()).push(self.run(steps.drop_last()).next_id)
        } else {
            self.issued(steps.drop_last())
        }
    }
}

/// What an operation handed back, with the record as a plain value.
pub open spec fn outcome(result: Result<VeganProduct, Error>) -> Result<ProductView, Error> {
    match result {
        Ok(product) => Ok(product@),
        Err(error) => Err(error),
    }
}

} // verus!
