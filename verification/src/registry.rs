//! The ledger of lent addresses: which addresses are out, and as what type.

use crate::error::PointerError;
use std::any::TypeId;
use std::collections::HashMap;
use std::collections::TryReserveError;
use vstd::prelude::*;

verus! {

/// `std::any::TypeId`, the identity of a type. Nothing is read from it; two
/// of them are only ever compared.
#[verifier::external_type_specification]
#[verifier::external_body]
pub struct ExTypeId(std::any::TypeId);

/// Calls `TypeId`'s `==`. Trusted: a `TypeId` is compared by the whole of its
/// value, so `==` answers whether the two are the same identity.
#[verifier::external_body]
pub(crate) fn same_type(left: &TypeId, right: &TypeId) -> (same: bool)
    ensures
        same == (*left == *right),
{
    left == right
}

/// Calls `HashMap::try_reserve`. Trusted: whether or not room could be made,
/// the entries are what they were. Nothing is claimed about when it fails.
#[verifier::external_body]
fn try_reserve(entries: &mut HashMap<usize, TypeId>, additional: usize) -> (reserved: Result<
    (),
    TryReserveError,
>)
    ensures
        final(entries)@ == old(entries)@,
{
    entries.try_reserve(additional)
}

/// What looking up `address` as `tag` finds in the entries `lent`: nothing
/// amiss, no entry, or an entry of another type.
pub open spec fn lookup(lent: Map<usize, TypeId>, address: usize, tag: TypeId) -> Result<
    (),
    PointerError,
> {
    if !lent.contains_key(address) {
        Err(PointerError::Invalid)
    } else if lent[address] != tag {
        Err(PointerError::InvalidType)
    } else {
        Ok(())
    }
}

/// The entries after an attempt to take `address` back as `tag`: without it
/// where the lookup finds nothing amiss, untouched otherwise.
pub open spec fn after_remove(lent: Map<usize, TypeId>, address: usize, tag: TypeId) -> Map<
    usize,
    TypeId,
> {
    if lookup(lent, address, tag) is Ok {
        lent.remove(address)
    } else {
        lent
    }
}

/// What an insertion reports, given how reserving room for it went.
pub open spec fn insert_outcome(reserved: Result<(), TryReserveError>) -> Result<
    (),
    PointerError,
> {
    match reserved {
        Ok(()) => Ok(()),
        Err(cause) => Err(PointerError::TryReserveError(cause)),
    }
}

/// The entries after an insertion of `address` as `tag`, given how reserving
/// room for it went.
pub open spec fn after_insert(
    lent: Map<usize, TypeId>,
    address: usize,
    tag: TypeId,
    reserved: Result<(), TryReserveError>,
) -> Map<usize, TypeId> {
    if reserved is Ok {
        lent.insert(address, tag)
    } else {
        lent
    }
}

/// The ledger itself. An address is a key at most once; it is a key exactly
/// while it is lent and not yet taken back.
pub struct Registry {
    entries: HashMap<usize, TypeId>,
}

impl View for Registry {
    type V = Map<usize, TypeId>;

    closed spec fn view(&self) -> Map<usize, TypeId> {
        self.entries@
    }
}

impl Registry {
    /// A ledger with nothing lent.
    pub fn new() -> (registry: Self)
        ensures
            registry@ == Map::<usize, TypeId>::empty(),
    {
        Registry { entries: HashMap::new() }
    }

    /// Records `address` as lent with type `tag`.
    ///
    /// Fails only when no room can be made for the entry, and then changes
    /// nothing, so that the caller still owns what it meant to lend.
    pub fn insert(&mut self, address: usize, tag: TypeId) -> (outcome: Result<(), PointerError>)
        ensures
            match outcome {
                Ok(()) => final(self)@ == old(self)@.insert(address, tag),
                Err(error) => error is TryReserveError && final(self)@ == old(self)@,
            },
    {
        let reserved = try_reserve(&mut self.entries, 1);
        self.insert_reserved(address, tag, reserved)
    }

    /// The part of [`insert`](Self::insert) that follows the attempt to make
    /// room: records the entry if room was made, and reports the failure
    /// otherwise.
    pub fn insert_reserved(
        &mut self,
        address: usize,
        tag: TypeId,
        reserved: Result<(), TryReserveError>,
    ) -> (outcome: Result<(), PointerError>)
        ensures
            outcome == insert_outcome(reserved),
            final(self)@ == after_insert(old(self)@, address, tag, reserved),
    {
        match reserved {
            Ok(()) => {
                self.entries.insert(address, tag);
                Ok(())
            },
            Err(cause) => Err(PointerError::from(cause)),
        }
    }

    /// Takes the entry of `address` out, provided it is there with type
    /// `tag`.
    ///
    /// An entry of another type is left in place: the address is still lent,
    /// and a later call with the right type succeeds.
    pub fn remove(&mut self, address: usize, tag: TypeId) -> (outcome: Result<(), PointerError>)
        ensures
            outcome == lookup(old(self)@, address, tag),
            final(self)@ == after_remove(old(self)@, address, tag),
    {
        match self.entries.get(&address) {
            Some(lent_as) if !same_type(lent_as, &tag) => Err(PointerError::InvalidType),
            None => Err(PointerError::Invalid),
            _ => {
                self.entries.remove(&address);
                Ok(())
            },
        }
    }

    /// Whether `address` is lent with type `tag`.
    pub fn contains_as(&self, address: usize, tag: TypeId) -> (found: bool)
        ensures
            found == (self@.contains_key(address) && self@[address] == tag),
    {
        match self.entries.get(&address) {
            Some(lent_as) => same_type(lent_as, &tag),
            None => false,
        }
    }

    /// The type that `address` is lent with, if it is lent.
    pub fn type_of(&self, address: usize) -> (found: Option<TypeId>)
        ensures
            found == (if self@.contains_key(address) {
                Some(self@[address])
            } else {
                None
            }),
    {
        match self.entries.get(&address) {
            Some(lent_as) => Some(*lent_as),
            None => None,
        }
    }
}

} // verus!
