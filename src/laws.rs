use crate::escrow::{
    cancel_step, checkin_step, claim_step, deposit_step, initialize_result, ErrorCode, EscrowView,
};
use vstd::prelude::*;

verus! {

/// The sum of a sequence of amounts.
pub open spec fn sum_of(amounts: Seq<int>) -> int
    decreases amounts.len(),
{
    if amounts.len() == 0 {
        0
    } else {
        sum_of(amounts.drop_last()) + amounts.last()
    }
}

/// The record left after `caller` makes the deposits `amounts`, in order.
pub open spec fn deposit_all(caller: Seq<u8>, slot: Option<EscrowView>, amounts: Seq<int>) -> Option<
    EscrowView,
>
    decreases amounts.len(),
{
    if amounts.len() == 0 {
        slot
    } else {
        deposit_step(caller, deposit_all(caller, slot, amounts.drop_last()), amounts.last()).1
    }
}

/// Whether each of the deposits `amounts` by `caller`, made in order, succeeds.
pub open spec fn deposits_succeed(caller: Seq<u8>, slot: Option<EscrowView>, amounts: Seq<int>) -> bool
    decreases amounts.len(),
{
    amounts.len() > 0 ==> {
        &&& deposits_succeed(caller, slot, amounts.drop_last())
        &&& deposit_step(caller, deposit_all(caller, slot, amounts.drop_last()), amounts.last()).0
            is Ok
    }
}

/// A record created with a deadline after the current time holds nothing,
/// keeps the deadline given, and records the current time as its last check-in.
pub proof fn initialize_creates_empty_record(
    owner: Seq<u8>,
    now: int,
    bump: u8,
    deadline: int,
    beneficiary: Seq<u8>,
    seed: Seq<char>,
)
    requires
        deadline > now,
    ensures
        initialize_result(owner, now, bump, deadline, beneficiary, seed) matches Ok(e) && e.balance
            == 0 && e.deadline == deadline && e.last_checkin == now && e.owner == owner
            && e.beneficiary == beneficiary && e.seed == seed,
{
}

/// Creating a record with a deadline at or before the current time always
/// fails with `InvalidDeadline`, and so yields no record.
pub proof fn initialize_rejects_past_deadline(
    owner: Seq<u8>,
    now: int,
    bump: u8,
    deadline: int,
    beneficiary: Seq<u8>,
    seed: Seq<char>,
)
    requires
        deadline <= now,
    ensures
        initialize_result(owner, now, bump, deadline, beneficiary, seed) == Err::<
            EscrowView,
            ErrorCode,
        >(ErrorCode::InvalidDeadline),
{
}

/// Any sequence of positive deposits by the owner succeeds, one by one, and
/// adds exactly their sum to the balance, changing nothing else.
pub proof fn deposits_add_their_sum(e: EscrowView, amounts: Seq<int>)
    requires
        forall|i: int| 0 <= i < amounts.len() ==> amounts[i] > 0,
    ensures
        deposits_succeed(e.owner, Some(e), amounts),
        deposit_all(e.owner, Some(e), amounts) == Some(
            EscrowView { balance: (e.balance + sum_of(amounts)) as nat, ..e },
        ),
        e.balance + sum_of(amounts) >= e.balance,
    decreases amounts.len(),
{
    if amounts.len() > 0 {
        let prefix = amounts.drop_last();
        deposits_add_their_sum(e, prefix);
    }
}

/// A deposit of zero fails with `InvalidAmount` and leaves the record as it was.
pub proof fn zero_deposit_rejected(e: EscrowView)
    ensures
        deposit_step(e.owner, Some(e), 0) == (
            Err::<(), ErrorCode>(ErrorCode::InvalidAmount),
            Some(e),
        ),
{
}

/// Before the deadline, the owner's check-in to a later time succeeds and sets
/// both the deadline and the last check-in.
pub proof fn checkin_in_time_extends(e: EscrowView, now: int, new_deadline: int)
    requires
        now < e.deadline,
        new_deadline > now,
    ensures
        checkin_step(e.owner, now, Some(e), new_deadline) == (
            Ok::<(), ErrorCode>(()),
            Some(EscrowView { deadline: new_deadline, last_checkin: now, ..e }),
        ),
{
}

/// At or after the deadline, the owner's check-in fails with
/// `DeadlineExceeded` whatever the new deadline, and changes nothing.
pub proof fn checkin_late_rejected(e: EscrowView, now: int, new_deadline: int)
    requires
        now >= e.deadline,
    ensures
        checkin_step(e.owner, now, Some(e), new_deadline) == (
            Err::<(), ErrorCode>(ErrorCode::DeadlineExceeded),
            Some(e),
        ),
{
}

/// Before the deadline, the beneficiary's claim fails with
/// `DeadlineNotReached` and leaves the record as it was.
pub proof fn claim_early_rejected(e: EscrowView, now: int)
    requires
        now < e.deadline,
    ensures
        claim_step(e.beneficiary, now, Some(e)) == (
            Err::<nat, ErrorCode>(ErrorCode::DeadlineNotReached),
            Some(e),
        ),
{
}

/// At or after the deadline, the beneficiary's claim pays out the whole
/// balance and ends the record.
pub proof fn claim_after_deadline_ends_record(e: EscrowView, now: int)
    requires
        now >= e.deadline,
    ensures
        claim_step(e.beneficiary, now, Some(e)) == (Ok::<nat, ErrorCode>(e.balance), None::<
            EscrowView,
        >),
{
}

/// Once a record has ended, every transition on it fails with `NotFound`,
/// whoever calls and whenever, and it stays ended.
pub proof fn ended_record_not_found(caller: Seq<u8>, now: int, amount: int, new_deadline: int)
    ensures
        claim_step(caller, now, None) == (Err::<nat, ErrorCode>(ErrorCode::NotFound), None::<
            EscrowView,
        >),
        cancel_step(caller, None) == (Err::<nat, ErrorCode>(ErrorCode::NotFound), None::<
            EscrowView,
        >),
        deposit_step(caller, None, amount) == (Err::<(), ErrorCode>(ErrorCode::NotFound), None::<
            EscrowView,
        >),
        checkin_step(caller, now, None, new_deadline) == (
            Err::<(), ErrorCode>(ErrorCode::NotFound),
            None::<EscrowView>,
        ),
{
}

/// The owner's cancellation succeeds at any time, pays the whole balance back
/// and ends the record.
pub proof fn cancel_by_owner_ends_record(e: EscrowView)
    ensures
        cancel_step(e.owner, Some(e)) == (Ok::<nat, ErrorCode>(e.balance), None::<EscrowView>),
{
}

/// A cancellation by anyone but the owner, or a claim by anyone but the
/// beneficiary, fails with `Unauthorized` and changes nothing, at any time.
pub proof fn strangers_rejected(e: EscrowView, caller: Seq<u8>, now: int)
    ensures
        caller != e.owner ==> cancel_step(caller, Some(e)) == (
            Err::<nat, ErrorCode>(ErrorCode::Unauthorized),
            Some(e),
        ),
        caller != e.beneficiary ==> claim_step(caller, now, Some(e)) == (
            Err::<nat, ErrorCode>(ErrorCode::Unauthorized),
            Some(e),
        ),
{
}

/// The amount a transition paid out, zero when it failed.
pub open spec fn paid(r: Result<nat, ErrorCode>) -> nat {
    match r {
        Ok(a) => a,
        Err(_) => 0,
    }
}

/// After the deadline, when the beneficiary claims and the owner cancels, in
/// either order, the first succeeds, the second fails with `NotFound`, and
/// exactly the balance is paid out in all.
pub proof fn claim_cancel_race(e: EscrowView, now: int)
    requires
        now >= e.deadline,
    ensures
        ({
            let (c1, s1) = claim_step(e.beneficiary, now, Some(e));
            let (c2, s2) = cancel_step(e.owner, s1);
            &&& c1 is Ok
            &&& c2 == Err::<nat, ErrorCode>(ErrorCode::NotFound)
            &&& s2 is None
            &&& paid(c1) + paid(c2) == e.balance
        }),
        ({
            let (c1, s1) = cancel_step(e.owner, Some(e));
            let (c2, s2) = claim_step(e.beneficiary, now, s1);
            &&& c1 is Ok
            &&& c2 == Err::<nat, ErrorCode>(ErrorCode::NotFound)
            &&& s2 is None
            &&& paid(c1) + paid(c2) == e.balance
        }),
{
}

} // verus!
