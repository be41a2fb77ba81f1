//! Product records and the payload that a caller supplies for one.

use vstd::prelude::*;

verus! {

/// A product record as contracts speak of it: the fields as plain values.
pub struct ProductView {
    pub id: u64,
    pub name: Seq<char>,
    pub description: Seq<char>,
    pub price: u64,
    pub seller: Seq<char>,
    pub availability: bool,
    pub created_at: u64,
    pub updated_at: Option<u64>,
}

/// A payload as contracts speak of it.
pub struct PayloadView {
    pub name: Seq<char>,
    pub description: Seq<char>,
    pub price: u64,
    pub seller: Seq<char>,
}

/// One product of the catalog.
///
/// `price` is in the smallest unit of the currency. `created_at` and
/// `updated_at` are timestamps; `updated_at` is `None` until the record is
/// first changed.
#[derive(Clone, Debug, PartialEq, Eq)]
pub struct VeganProduct {
    pub id: u64,
    pub name: String,
    pub description: String,
    pub price: u64,
    pub seller: String,
    pub availability: bool,
    pub created_at: u64,
    pub updated_at: Option<u64>,
}

/// The fields of a product that its seller chooses.
#[derive(Clone, Debug, PartialEq, Eq)]
pub struct ProductPayload {
    pub name: String,
    pub description: String,
    pub price: u64,
    pub seller: String,
}

impl View for VeganProduct {
    type V = ProductView;

    open spec fn view(&self) -> ProductView {
        ProductView {
            id: self.id,
            name: self.name@,
            description: self.description@,
            price: self.price,
            seller: self.seller@,
            availability: self.availability,
            created_at: self.created_at,
            updated_at: self.updated_at,
        }
    }
}

impl View for ProductPayload {
    type V = PayloadView;

    open spec fn view(&self) -> PayloadView {
        PayloadView {
            name: self.name@,
            description: self.description@,
            price: self.price,
            seller: self.seller@,
        }
    }
}

impl Default for VeganProduct {
    /// A record with every field empty or zero, unavailable and never updated.
    fn default() -> (product: VeganProduct)
        ensures
            product@ == (ProductView {
                id: 0,
                name: Seq::empty(),
                description: Seq::empty(),
                price: 0,
                seller: Seq::empty(),
                availability: false,
                created_at: 0,
                updated_at: None,
            }),
    {
        VeganProduct {
            id: 0,
            name: String::new(),
            description: String::new(),
            price: 0,
            seller: String::new(),
            availability: false,
            created_at: 0,
            updated_at: None,
        }
    }
}

impl Default for ProductPayload {
    /// A payload with empty texts and price zero.
    fn default() -> (payload: ProductPayload)
        ensures
            payload@ == (PayloadView {
                name: Seq::empty(),
                description: Seq::empty(),
                price: 0,
                seller: Seq::empty(),
            }),
    {
        ProductPayload {
            name: String::new(),
            description: String::new(),
            price: 0,
            seller: String::new(),
        }
    }
}

} // verus!
