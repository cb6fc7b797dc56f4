//! What holds of the protocol over whole runs of calls.
//!
//! A run is a sequence of [`Call`]s, each made on the ledger as the one before
//! left it. Calls on one ledger never overlap, since lending and taking back
//! borrow it exclusively; so every execution, on however many threads, is
//! such a run.

use crate::after_own_back;
use crate::error::PointerError;
use crate::validation::validated;
use std::any::TypeId;
use vstd::prelude::*;

verus! {

/// One call of the protocol, as far as it bears on the ledger.
pub enum Call {
    /// `raw`, where it succeeded. (Where it fails, it changes nothing.)
    Lend { address: usize, tag: TypeId },
    /// `object` or `mut_object`.
    Peek { address: usize, tag: TypeId },
    /// `own_back`.
    Retrieve { address: usize, tag: TypeId },
}

/// The entries after `call`, made on the entries `lent`.
pub open spec fn step(lent: Map<usize, TypeId>, call: Call) -> Map<usize, TypeId> {
    match call {
        Call::Lend { address, tag } => lent.insert(address, tag),
        Call::Peek { .. } => lent,
        Call::Retrieve { address, tag } => after_own_back(lent, address, tag),
    }
}

/// The entries after all of `calls`, made in turn, starting from `lent`.
pub open spec fn replay(lent: Map<usize, TypeId>, calls: Seq<Call>) -> Map<usize, TypeId>
    decreases calls.len(),
{
    if calls.len() == 0 {
        lent
    } else {
        step(replay(lent, calls.drop_last()), calls.last())
    }
}

/// What `call`, made on the entries `lent`, is answered with. A recorded
/// lending is one that succeeded.
pub open spec fn answer(lent: Map<usize, TypeId>, call: Call) -> Result<usize, PointerError> {
    match call {
        Call::Lend { address, .. } => Ok(address),
        Call::Peek { address, tag } => validated(lent, address, tag),
        Call::Retrieve { address, tag } => validated(lent, address, tag),
    }
}

/// What the call at position `at` of `calls` is answered with, the calls
/// being made in turn, starting from `lent`.
pub open spec fn answer_at(lent: Map<usize, TypeId>, calls: Seq<Call>, at: int) -> Result<
    usize,
    PointerError,
> {
    answer(replay(lent, calls.take(at)), calls[at])
}

/// Whether none of `calls` lends `address`.
pub open spec fn never_lends(calls: Seq<Call>, address: usize) -> bool {
    forall|i: int|
        0 <= i < calls.len() ==> !((#[trigger] calls[i]) matches Call::Lend { address: lent, .. }
            && lent == address)
}

/// Whether all of `calls` are peeks.
pub open spec fn only_peeks(calls: Seq<Call>) -> bool {
    forall|i: int| 0 <= i < calls.len() ==> (#[trigger] calls[i]) is Peek
}

/// Lending an address and taking it back with the same type succeeds, and
/// leaves the address out of the ledger. Where the address was not in the
/// ledger before, the ledger is again what it was: taking back undoes
/// lending exactly.
pub proof fn lend_then_own_back_round_trip(lent: Map<usize, TypeId>, address: usize, tag: TypeId)
    requires
        address != 0,
    ensures
        validated(lent.insert(address, tag), address, tag) == Ok::<usize, PointerError>(address),
        !after_own_back(lent.insert(address, tag), address, tag).contains_key(address),
        !lent.contains_key(address) ==> after_own_back(lent.insert(address, tag), address, tag)
            == lent,
{
    assert(lent.insert(address, tag).remove(address) =~= lent.remove(address));
    if !lent.contains_key(address) {
        assert(lent.remove(address) =~= lent);
    }
}

/// An address that is not in the ledger, and that no later call lends, is
/// still not in the ledger after those calls.
pub proof fn absent_address_stays_absent(
    lent: Map<usize, TypeId>,
    calls: Seq<Call>,
    address: usize,
)
    requires
        !lent.contains_key(address),
        never_lends(calls, address),
    ensures
        !replay(lent, calls).contains_key(address),
    decreases calls.len(),
{
    if calls.len() > 0 {
        let earlier = calls.drop_last();
        assert forall|i: int| 0 <= i < earlier.len() implies !((#[trigger] earlier[i]) matches Call::Lend {
            address: other,
            ..
        } && other == address) by {
            assert(earlier[i] == calls[i]);
        }
        absent_address_stays_absent(lent, earlier, address);
        assert(calls.last() == calls[calls.len() - 1]);
    }
}

/// Of any number of attempts to take one lent address back, exactly one
/// succeeds. The first attempt with the right type succeeds; whatever calls
/// follow it, in whatever order, as long as none lends the address anew,
/// every further attempt on it, of any type, finds it not lent.
pub proof fn own_back_succeeds_once(
    lent: Map<usize, TypeId>,
    address: usize,
    tag: TypeId,
    later: Seq<Call>,
    again: TypeId,
)
    requires
        address != 0,
        lent.contains_key(address),
        lent[address] == tag,
        never_lends(later, address),
    ensures
        validated(lent, address, tag) == Ok::<usize, PointerError>(address),
        validated(replay(after_own_back(lent, address, tag), later), address, again) == Err::<
            usize,
            PointerError,
        >(PointerError::Invalid),
{
    absent_address_stays_absent(after_own_back(lent, address, tag), later, address);
}

/// Of any number of attempts in a row to take one lent address back with its
/// type, the first succeeds and every other finds the address not lent.
pub proof fn own_back_has_one_winner(
    lent: Map<usize, TypeId>,
    address: usize,
    tag: TypeId,
    attempts: Seq<Call>,
    at: int,
)
    requires
        address != 0,
        lent.contains_key(address),
        lent[address] == tag,
        forall|i: int|
            0 <= i < attempts.len() ==> #[trigger] attempts[i] == (Call::Retrieve { address, tag }),
        0 <= at < attempts.len(),
    ensures
        answer_at(lent, attempts, at) == (if at == 0 {
            Ok::<usize, PointerError>(address)
        } else {
            Err::<usize, PointerError>(PointerError::Invalid)
        }),
        !replay(lent, attempts.take(at + 1)).contains_key(address),
    decreases at,
{
    let made = attempts.take(at + 1);
    assert(made.drop_last() =~= attempts.take(at));
    assert(made.last() == attempts[at]);
    if at == 0 {
        assert(replay(lent, attempts.take(0)) == lent);
    } else {
        own_back_has_one_winner(lent, address, tag, attempts, at - 1);
    }
}

/// An address lent as one type and asked for as another is refused as
/// wrongly typed, by a peek as by an attempt to take it back. The attempt
/// leaves the ledger as it was, so that the address can still be taken back
/// with the type it was lent as.
pub proof fn type_confusion_is_rejected(
    lent: Map<usize, TypeId>,
    address: usize,
    lent_as: TypeId,
    asked_as: TypeId,
)
    requires
        address != 0,
        lent_as != asked_as,
    ensures
        validated(lent.insert(address, lent_as), address, asked_as) == Err::<usize, PointerError>(
            PointerError::InvalidType,
        ),
        after_own_back(lent.insert(address, lent_as), address, asked_as) == lent.insert(
            address,
            lent_as,
        ),
        validated(
            after_own_back(lent.insert(address, lent_as), address, asked_as),
            address,
            lent_as,
        ) == Ok::<usize, PointerError>(address),
{
}

/// The null address is refused as null whatever the ledger holds and
/// whatever type is asked for, and an attempt to take it back changes
/// nothing.
pub proof fn null_is_rejected_first(lent: Map<usize, TypeId>, tag: TypeId)
    ensures
        validated(lent, 0, tag) == Err::<usize, PointerError>(PointerError::Null),
        after_own_back(lent, 0, tag) == lent,
{
}

/// An address that was never lent is refused as not lent, whatever else
/// happened on the ledger since it was empty.
pub proof fn never_lent_is_rejected(calls: Seq<Call>, address: usize, tag: TypeId)
    requires
        address != 0,
        never_lends(calls, address),
    ensures
        validated(replay(Map::<usize, TypeId>::empty(), calls), address, tag) == Err::<
            usize,
            PointerError,
        >(PointerError::Invalid),
{
    absent_address_stays_absent(Map::<usize, TypeId>::empty(), calls, address);
}

/// Peeks, however many, leave the ledger as it was; so a peek after them is
/// answered as it would have been before them.
pub proof fn peeks_change_nothing(
    lent: Map<usize, TypeId>,
    peeks: Seq<Call>,
    address: usize,
    tag: TypeId,
)
    requires
        only_peeks(peeks),
    ensures
        replay(lent, peeks) == lent,
        validated(replay(lent, peeks), address, tag) == validated(lent, address, tag),
    decreases peeks.len(),
{
    if peeks.len() > 0 {
        let earlier = peeks.drop_last();
        assert forall|i: int| 0 <= i < earlier.len() implies (#[trigger] earlier[i]) is Peek by {
            assert(earlier[i] == peeks[i]);
        }
        peeks_change_nothing(lent, earlier, address, tag);
        assert(peeks.last() == peeks[peeks.len() - 1]);
    }
}

} // verus!
