//! Opaque handles for foreign callers, with a ledger of which addresses are
//! currently lent out and as what type.
//!
//! A handle is the address of a value that its owner has parked on the heap.
//! The functions here decide, on addresses and type identities alone, whether
//! a handle may be handed out, looked through, or taken back; allocating and
//! dereferencing are the caller's.

use crate::error::PointerError;
use crate::registry::Registry;
use crate::validation::{lent_pointer, not_null_pointer, validated};
use std::any::TypeId;
use vstd::prelude::*;

pub mod c;
pub mod error;
pub mod history;
pub mod lender;
pub mod registry;
pub mod validation;

verus! {

/// The entries after an attempt to take `address` back as `tag`: without it
/// where every check passes, untouched otherwise.
pub open spec fn after_own_back(lent: Map<usize, TypeId>, address: usize, tag: TypeId) -> Map<
    usize,
    TypeId,
> {
    if validated(lent, address, tag) is Ok {
        lent.remove(address)
    } else {
        lent
    }
}

/// Lends the freshly allocated `address` as a value of type `tag`, and hands
/// it back as the handle to give out.
///
/// Fails only when the ledger cannot grow. Nothing is recorded then, and the
/// caller still owns the value.
pub fn raw(registry: &mut Registry, address: usize, tag: TypeId) -> (handle: Result<
    usize,
    PointerError,
>)
    ensures
        match handle {
            Ok(lent) => lent == address && final(registry)@ == old(registry)@.insert(address, tag),
            Err(error) => error is TryReserveError && final(registry)@ == old(registry)@,
        },
{
    match lender::lend(registry, address, tag) {
        Ok(()) => Ok(address),
        Err(error) => Err(error),
    }
}

/// Takes `address` back: checks it as [`object`] does and, where it passes,
/// strikes it from the ledger, so that ownership of the value may be resumed
/// exactly once.
pub fn own_back(registry: &mut Registry, address: usize, tag: TypeId) -> (handle: Result<
    usize,
    PointerError,
>)
    ensures
        handle == validated(old(registry)@, address, tag),
        final(registry)@ == after_own_back(old(registry)@, address, tag),
{
    match not_null_pointer(address) {
        Err(error) => Err(error),
        Ok(()) => match lender::retrieve(registry, address, tag) {
            Err(error) => Err(error),
            Ok(()) => Ok(address),
        },
    }
}

/// Checks that `address` may be read as a value of type `tag`: that it is not
/// null, that it is lent, and that it is lent as `tag`, in this order. The
/// ledger is only read, so the check may be repeated at will.
pub fn object(registry: &Registry, address: usize, tag: TypeId) -> (handle: Result<
    usize,
    PointerError,
>)
    ensures
        handle == validated(registry@, address, tag),
{
    match not_null_pointer(address) {
        Err(error) => Err(error),
        Ok(()) => match lent_pointer(registry, address, tag) {
            Err(error) => Err(error),
            Ok(()) => Ok(address),
        },
    }
}

/// Checks that `address` may be written as a value of type `tag`. The checks,
/// and their order, are those of [`object`]; the ledger is only read.
pub fn mut_object(registry: &Registry, address: usize, tag: TypeId) -> (handle: Result<
    usize,
    PointerError,
>)
    ensures
        handle == validated(registry@, address, tag),
{
    object(registry, address, tag)
}

} // verus!
