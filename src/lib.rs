//! An in-memory model of a solar array inventory: components with named
//! electrical specifications, series / parallel / direct connections that
//! aggregate their totals, and quantity-tagged inventories.
use vstd::prelude::*;

pub mod inventory_types;
pub mod laws;
pub mod text;

verus! {

/// A store of array components.
pub struct Inventory {}

} // verus!
