//! The counter that issues identifiers.

use crate::stable::{
    cell_get, cell_init, cell_into_region, cell_region, cell_set, cell_value, IdCell, Region,
};
use vstd::prelude::*;

verus! {

/// A durable counter. Its value is the identifier that it will issue next;
/// each identifier is issued once.
pub struct IdCounter {
    cell: IdCell,
}

impl View for IdCounter {
    type V = u64;

    /// The identifier that the counter will issue next.
    closed spec fn view(&self) -> u64 {
        cell_value(self.cell)
    }
}

impl IdCounter {
    /// Opens the counter kept in `region`, which stays its region. A region
    /// that holds no counter yet gets one that starts at zero. `None` where
    /// the region cannot be used.
    pub fn open(region: Region) -> (counter: Option<IdCounter>)
        ensures
            counter matches Some(c) ==> c.region() == region,
    {
        match cell_init(region, 0) {
            Some(cell) => Some(IdCounter { cell }),
            None => None,
        }
    }

    /// Gives up the counter for the region it is kept in, where its value
    /// stays.
    pub fn close(self) -> (region: Region)
        ensures
            region == self.region(),
    {
        cell_into_region(self.cell)
    }

    /// The region that the counter is kept in.
    pub closed spec fn region(&self) -> Region {
        cell_region(self.cell)
    }

    /// The identifier that the counter will issue next.
    pub fn peek(&self) -> (id: u64)
        ensures
            id == self@,
    {
        cell_get(&self.cell)
    }

    /// Issues an identifier: the counter's value, which is stepped by one
    /// and stored before the identifier is handed out.
    pub fn next_id(&mut self) -> (id: u64)
        requires
            old(self)@ < u64::MAX,
        ensures
            id == old(self)@,
            final(self)@ == id + 1,
            final(self).region() == old(self).region(),
    {
        let current: u64 = cell_get(&self.cell);
        cell_set(&mut self.cell, current + 1)
    }
}

} // verus!
