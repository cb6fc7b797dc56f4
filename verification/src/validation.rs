//! The checks that every use of a handle passes first.

use crate::error::PointerError;
use crate::lender::lent_type_of;
use crate::registry::{lookup, same_type, Registry};
use std::any::TypeId;
use vstd::prelude::*;

verus! {

/// What checking `address` for null, and then against the entries `lent` as
/// `tag`, comes to: the address itself where it may be used, else the first
/// check that fails.
pub open spec fn validated(lent: Map<usize, TypeId>, address: usize, tag: TypeId) -> Result<
    usize,
    PointerError,
> {
    if address == 0 {
        Err(PointerError::Null)
    } else {
        match lookup(lent, address, tag) {
            Ok(()) => Ok(address),
            Err(error) => Err(error),
        }
    }
}

/// Rejects the null address.
pub fn not_null_pointer(address: usize) -> (outcome: Result<(), PointerError>)
    ensures
        outcome == (if address == 0 {
            Err(PointerError::Null)
        } else {
            Ok(())
        }),
{
    if address == 0 {
        return Err(PointerError::Null);
    }
    Ok(())
}

/// Rejects an address that is not lent, or that is lent as another type than
/// `tag`. The ledger is only read.
pub fn lent_pointer(registry: &Registry, address: usize, tag: TypeId) -> (outcome: Result<
    (),
    PointerError,
>)
    ensures
        outcome == lookup(registry@, address, tag),
{
    match lent_type_of(registry, address) {
        Some(lent_as) if !same_type(&lent_as, &tag) => Err(PointerError::InvalidType),
        None => Err(PointerError::Invalid),
        _ => Ok(()),
    }
}

} // verus!
