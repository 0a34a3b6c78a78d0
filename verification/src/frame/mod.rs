//! The pallets that the library knows the storage of.

use vstd::prelude::*;

pub mod staking;

verus! {

/// An entry of a pallet's storage: where it is found.
pub trait Store {
    /// The name of the pallet.
    const MODULE: &'static str;

    /// The name of the entry within the pallet.
    const FIELD: &'static str;
}

} // verus!
