//! Lending and taking back, as steps of the protocol on a ledger that the
//! caller holds. Whoever shares one ledger between threads serialises these
//! steps by the exclusive borrow that `lend` and `retrieve` ask for.

use crate::error::PointerError;
use crate::registry::{after_remove, lookup, Registry};
use std::any::TypeId;
use vstd::prelude::*;

verus! {

/// The type that `address` was lent with, if it is lent.
pub fn lent_type_of(registry: &Registry, address: usize) -> (found: Option<TypeId>)
    ensures
        found == (if registry@.contains_key(address) {
            Some(registry@[address])
        } else {
            None
        }),
{
    registry.type_of(address)
}

/// Records that `address` is handed out as a value of type `tag`.
///
/// Fails only when the ledger cannot grow, and then leaves it as it was.
pub fn lend(registry: &mut Registry, address: usize, tag: TypeId) -> (outcome: Result<
    (),
    PointerError,
>)
    ensures
        match outcome {
            Ok(()) => final(registry)@ == old(registry)@.insert(address, tag),
            Err(error) => error is TryReserveError && final(registry)@ == old(registry)@,
        },
{
    registry.insert(address, tag)
}

/// Strikes `address` from the ledger, provided it was lent as `tag`.
///
/// Of any number of attempts on one lent address the first succeeds and the
/// others find it gone. An attempt with the wrong type leaves the entry in
/// place.
pub fn retrieve(registry: &mut Registry, address: usize, tag: TypeId) -> (outcome: Result<
    (),
    PointerError,
>)
    ensures
        outcome == lookup(old(registry)@, address, tag),
        final(registry)@ == after_remove(old(registry)@, address, tag),
{
    registry.remove(address, tag)
}

} // verus!
