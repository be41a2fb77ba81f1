//! What holds of the catalog whatever is done with it.
//!
//! Each law is stated over the model of the catalog, in the terms in which
//! the contracts of the operations are stated.

use crate::error::Error;
use crate::model::{CatalogView, Step};
use crate::product::{PayloadView, ProductView};
use vstd::prelude::*;

verus! {

/// Identifiers are issued in strictly increasing order, whatever else is done
/// between two additions: updates, switches and deletions leave the counter
/// alone, and a deletion does not free an identifier. This holds as long as
/// the counter does not pass the largest `u64`.
pub proof fn law_identifiers_increase(start: CatalogView, steps: Seq<Step>)
    requires
        start.next_id + start.issued(steps).len() <= u64::MAX,
    ensures
        start.run(steps).next_id == start.next_id + start.issued(steps).len(),
        forall|i: int|
            0 <= i < start.issued(steps).len() ==> #[trigger] start.issued(steps)[i]
                == start.next_id + i,
        forall|i: int, j: int|
            0 <= i < j < start.issued(steps).len() ==> start.issued(steps)[i] < start.issued(
                steps,
            )[j],
    decreases steps.len(),
{
    if steps.len() > 0 {
        law_identifiers_increase(start, steps.drop_last());
    }
}

/// A series of changes keeps a consistent catalog consistent: every record
/// stays under its own identifier, and no identifier in use is one that the
/// counter has yet to issue.
pub proof fn law_consistency_is_kept(start: CatalogView, steps: Seq<Step>)
    requires
        start.consistent(),
        start.next_id + start.issued(steps).len() <= u64::MAX,
    ensures
        start.run(steps).consistent(),
    decreases steps.len(),
{
    if steps.len() > 0 {
        law_consistency_is_kept(start, steps.drop_last());
        law_identifiers_increase(start, steps.drop_last());
    }
}

/// In a consistent catalog the next identifier is not in use, so an addition
/// replaces no record.
pub proof fn law_next_identifier_is_unused(state: CatalogView)
    requires
        state.consistent(),
    ensures
        !state.records.contains_key(state.next_id),
{
}

/// A change touches one record only: a lookup of any identifier but the one
/// that the change is about, or the one that an addition hands out, gives
/// what it gave before.
pub proof fn law_other_records_are_untouched(state: CatalogView, step: Step, other: u64)
    requires
        step.target() != Some(other),
        step is Add ==> other != state.next_id,
    ensures
        state.step(step).get(other) == state.get(other),
{
}

/// A record keeps its identifier and its time of creation for as long as it
/// exists, whatever is done to it.
pub proof fn law_identity_is_kept(state: CatalogView, step: Step, id: u64)
    requires
        state.consistent(),
        state.records.contains_key(id),
        state.step(step).records.contains_key(id),
    ensures
        state.step(step).records[id].id == state.records[id].id,
        state.step(step).records[id].created_at == state.records[id].created_at,
{
}

/// The time of the last update never goes back, as long as the clock does
/// not: a change made at a time that is not before the last update of a
/// record leaves that time as it is or moves it on. Once a record was
/// updated or switched, its time of last update is set for good.
pub proof fn law_update_time_moves_on(state: CatalogView, step: Step, id: u64)
    requires
        state.consistent(),
        state.records.contains_key(id),
        state.step(step).records.contains_key(id),
        state.records[id].updated_at matches Some(before) ==> (step.time() matches Some(now)
            ==> before <= now),
    ensures
        state.records[id].updated_at matches Some(before) ==> state.step(
            step,
        ).records[id].updated_at is Some && before <= state.step(step).records[id].updated_at->0,
        (step is Update || step is Toggle) && step.target() == Some(id) ==> state.step(
            step,
        ).records[id].updated_at == step.time(),
{
}

/// A product that was added is found under the identifier it was given, with
/// the payload's fields, available, created at the time of the addition and
/// never updated.
pub proof fn law_added_product_is_found(state: CatalogView, payload: PayloadView, now: u64)
    ensures
        state.add(payload, now).get(state.next_id) == Ok::<ProductView, Error>(
            state.created(payload, now),
        ),
        state.created(payload, now) == (ProductView {
            id: state.next_id,
            name: payload.name,
            description: payload.description,
            price: payload.price,
            seller: payload.seller,
            availability: true,
            created_at: now,
            updated_at: None,
        }),
{
}

/// An update of a product that exists gives it the payload's fields and the
/// time of the update, and leaves its identifier, its availability and its
/// time of creation as they were; the time of the update is not before the
/// time of creation, as long as the clock did not go back. An update of a
/// product that does not exist is refused and changes nothing.
pub proof fn law_update(state: CatalogView, id: u64, payload: PayloadView, now: u64)
    requires
        state.records.contains_key(id) ==> state.records[id].created_at <= now,
    ensures
        state.records.contains_key(id) ==> state.update(id, payload, now).get(id) == Ok::<
            ProductView,
            Error,
        >(
            ProductView {
                id: state.records[id].id,
                name: payload.name,
                description: payload.description,
                price: payload.price,
                seller: payload.seller,
                availability: state.records[id].availability,
                created_at: state.records[id].created_at,
                updated_at: Some(now),
            },
        ),
        state.records.contains_key(id) ==> state.update(id, payload, now).records[id].updated_at->0
            >= state.update(id, payload, now).records[id].created_at,
        !state.records.contains_key(id) ==> state.update(id, payload, now).get(id) == Err::<
            ProductView,
            Error,
        >(Error::NotFound { id }),
        !state.records.contains_key(id) ==> state.update(id, payload, now) == state,
{
}

/// A product that was deleted is no longer found. The deletion of a product
/// that does not exist changes nothing, and the lookup that decides what the
/// deletion hands back finds nothing.
pub proof fn law_delete(state: CatalogView, id: u64)
    ensures
        state.delete(id).get(id) == Err::<ProductView, Error>(Error::NotFound { id }),
        !state.records.contains_key(id) ==> state.get(id) == Err::<ProductView, Error>(
            Error::NotFound { id },
        ),
        !state.records.contains_key(id) ==> state.delete(id) == state,
        state.delete(id).next_id == state.next_id,
{
    assert(!state.records.contains_key(id) ==> state.records.remove(id) =~= state.records);
}

/// Switching the availability of a product twice brings it back to what it
/// was, and nothing else in the record changes but the time of the last
/// update. Each switch stamps the record with its own time, so that time
/// moves on with every switch, as long as the clock did not go back.
pub proof fn law_toggle_twice(state: CatalogView, id: u64, first: u64, second: u64)
    requires
        state.records.contains_key(id),
        state.records[id].updated_at matches Some(before) ==> before <= first,
        first <= second,
    ensures
        state.toggle(id, first).records[id].availability == !state.records[id].availability,
        state.toggle(id, first).toggle(id, second).records[id].availability
            == state.records[id].availability,
        state.toggle(id, first).records[id].updated_at == Some(first),
        state.toggle(id, first).toggle(id, second).records[id].updated_at == Some(second),
        state.records[id].updated_at matches Some(before) ==> before <= state.toggle(
            id,
            first,
        ).records[id].updated_at->0,
        state.toggle(id, first).records[id].updated_at->0 <= state.toggle(id, first).toggle(
            id,
            second,
        ).records[id].updated_at->0,
        state.toggle(id, first).toggle(id, second).records[id] == (ProductView {
            updated_at: Some(second),
            ..state.records[id]
        }),
{
}

} // verus!
