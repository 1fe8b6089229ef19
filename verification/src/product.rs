//! The one domain entity of the service: a product record, keyed by an
//! integer id, with a name attribute.

use vstd::prelude::*;

verus! {

/// A product record as the handlers see it: the integer key and the
/// remaining attribute.
pub struct Product {
    pub id: u64,
    pub name: String,
}

/// The mathematical value of a product: the id and the name's characters.
pub struct ProductView {
    pub id: u64,
    pub name: Seq<char>,
}

impl View for Product {
    type V = ProductView;

    open spec fn view(&self) -> ProductView {
        ProductView { id: self.id, name: self.name@ }
    }
}

impl Product {
    pub fn new(id: u64, name: String) -> (p: Product)
        ensures
            p@ == (ProductView { id, name: name@ }),
    {
        Product { id, name }
    }
}

} // verus!
