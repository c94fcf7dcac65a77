//! Reference counts.
//!
//! A foreign object lives as long as its reference count is above zero. The
//! bridge does not touch the count; it says which change is due, and the
//! caller has the runtime make it. Nil has no count, so nothing is ever due
//! for it.

use vstd::prelude::*;

verus! {

/// A change to one object's reference count that is due.
#[derive(Clone, Copy, Debug, PartialEq, Eq, Structural)]
pub enum Upkeep {
    /// No change.
    Nothing,
    /// One more unit on the object at this address.
    Retain(usize),
    /// One unit less on the object at this address.
    Release(usize),
}

/// What is due when a unit is taken on the object at `address`.
pub open spec fn retaining(address: usize) -> Upkeep {
    if address == 0 {
        Upkeep::Nothing
    } else {
        Upkeep::Retain(address)
    }
}

/// What is due when a unit on the object at `address` is given up.
pub open spec fn releasing(address: usize) -> Upkeep {
    if address == 0 {
        Upkeep::Nothing
    } else {
        Upkeep::Release(address)
    }
}

/// By how much `upkeep` changes the count of the object at `address`.
pub open spec fn effect(upkeep: Upkeep, address: usize) -> int {
    match upkeep {
        Upkeep::Nothing => 0,
        Upkeep::Retain(target) => if target == address {
            1
        } else {
            0
        },
        Upkeep::Release(target) => if target == address {
            -1
        } else {
            0
        },
    }
}

/// By how much the changes in `history`, taken together, change the count of
/// the object at `address`.
pub open spec fn net(history: Seq<Upkeep>, address: usize) -> int
    decreases history.len(),
{
    if history.len() == 0 {
        0
    } else {
        net(history.drop_last(), address) + effect(history.last(), address)
    }
}

/// `times` copies of `upkeep`.
pub open spec fn repeated(upkeep: Upkeep, times: nat) -> Seq<Upkeep> {
    Seq::new(times, |i: int| upkeep)
}

/// Takes a unit on the object at `address`; nothing is due for nil.
pub fn retain(address: usize) -> (upkeep: Upkeep)
    ensures
        upkeep == retaining(address),
{
    if address == 0 {
        Upkeep::Nothing
    } else {
        Upkeep::Retain(address)
    }
}

/// Gives up a unit on the object at `address`; nothing is due for nil.
pub fn release(address: usize) -> (upkeep: Upkeep)
    ensures
        upkeep == releasing(address),
{
    if address == 0 {
        Upkeep::Nothing
    } else {
        Upkeep::Release(address)
    }
}

/// The net change of two histories in a row is the sum of their net changes.
pub proof fn net_of_concatenation(first: Seq<Upkeep>, second: Seq<Upkeep>, address: usize)
    ensures
        net(first + second, address) == net(first, address) + net(second, address),
    decreases second.len(),
{
    if second.len() == 0 {
        assert(first + second =~= first);
    } else {
        net_of_concatenation(first, second.drop_last(), address);
        assert((first + second).drop_last() =~= first + second.drop_last());
        assert((first + second).last() == second.last());
    }
}

/// The net change of one change made `times` times is `times` times its effect.
pub proof fn net_of_repetition(upkeep: Upkeep, times: nat, address: usize)
    ensures
        net(repeated(upkeep, times), address) == times * effect(upkeep, address),
    decreases times,
{
    if times > 0 {
        net_of_repetition(upkeep, (times - 1) as nat, address);
        assert(repeated(upkeep, times).drop_last() =~= repeated(upkeep, (times - 1) as nat));
        assert(times * effect(upkeep, address) == (times - 1) * effect(upkeep, address) + effect(
            upkeep,
            address,
        )) by (nonlinear_arith);
    }
}

/// Releasing an object as often as it was retained leaves every count where
/// it was.
pub proof fn retains_and_releases_balance(address: usize, times: nat, observed: usize)
    ensures
        net(
            repeated(retaining(address), times) + repeated(releasing(address), times),
            observed,
        ) == 0,
        address != 0 ==> net(repeated(retaining(address), times), address) == times,
{
    let retains = repeated(retaining(address), times);
    let releases = repeated(releasing(address), times);
    net_of_concatenation(retains, releases, observed);
    net_of_repetition(retaining(address), times, observed);
    net_of_repetition(releasing(address), times, observed);
    net_of_repetition(retaining(address), times, address);
    assert(times * effect(retaining(address), observed) + times * effect(
        releasing(address),
        observed,
    ) == 0) by (nonlinear_arith)
        requires
            effect(retaining(address), observed) == -effect(releasing(address), observed),
    ;
    assert(address != 0 ==> times * effect(retaining(address), address) == times) by (nonlinear_arith)
        requires
            address != 0 ==> effect(retaining(address), address) == 1,
    ;
}

/// What falls due when an owner is cloned and both owners are ended.
pub open spec fn clone_and_two_drops(address: usize) -> Seq<Upkeep> {
    seq![retaining(address), releasing(address), releasing(address)]
}

/// Cloning an owner and ending both owners gives back the clone's unit and
/// the first owner's unit and no more: along the way the count never falls
/// further than by that one unit, and no other object's count is touched.
pub proof fn clone_and_both_drops_give_back_one_unit(address: usize, observed: usize)
    ensures
        address != 0 ==> net(clone_and_two_drops(address), address) == -1,
        forall|done: int|
            0 <= done <= 3 ==> #[trigger] net(clone_and_two_drops(address).take(done), address)
                >= -1,
        observed != address ==> net(clone_and_two_drops(address), observed) == 0,
        address == 0 ==> clone_and_two_drops(address) == seq![
            Upkeep::Nothing,
            Upkeep::Nothing,
            Upkeep::Nothing,
        ],
{
    let history = clone_and_two_drops(address);
    reveal_with_fuel(net, 4);
    assert(history.take(0) =~= Seq::<Upkeep>::empty());
    assert(history.take(1) =~= seq![retaining(address)]);
    assert(history.take(2) =~= seq![retaining(address), releasing(address)]);
    assert(history.take(3) =~= history);
    assert(history.drop_last() =~= seq![retaining(address), releasing(address)]);
    assert(history.drop_last().drop_last() =~= seq![retaining(address)]);
    assert(history.drop_last().drop_last().drop_last() =~= Seq::<Upkeep>::empty());
    assert(net(history.take(0), address) == 0);
    assert(net(history.take(1), address) >= 0);
    assert(net(history.take(2), address) == 0);
    assert(net(history.take(3), address) >= -1);
}

/// Nothing that is due for nil changes any count.
pub proof fn nil_is_never_counted(observed: usize)
    ensures
        retaining(0) == Upkeep::Nothing,
        releasing(0) == Upkeep::Nothing,
        effect(retaining(0), observed) == 0,
        effect(releasing(0), observed) == 0,
{
}

} // verus!
