use crate::pubkey::Pubkey;
use vstd::prelude::*;

verus! {

/// The ways a transition of an escrow can be refused. A refused transition
/// changes nothing.
#[derive(Clone, Copy, Debug, PartialEq, Eq, Structural)]
pub enum ErrorCode {
    /// The proposed deadline is not strictly after the current time.
    InvalidDeadline,
    /// A deposit of zero.
    InvalidAmount,
    /// A check-in at or after the deadline.
    DeadlineExceeded,
    /// A claim before the deadline.
    DeadlineNotReached,
    /// The caller does not hold the role that the transition asks for.
    Unauthorized,
    /// There is no live record (never created, or already claimed or cancelled).
    NotFound,
}

/// A live escrow record: who owns it, who may claim it, when, and the funds it holds.
#[derive(Clone, Debug)]
pub struct Escrow {
    pub owner: Pubkey,
    pub beneficiary: Pubkey,
    /// Seconds since the epoch from which a claim is allowed.
    pub deadline: i64,
    /// Time of creation or of the latest check-in.
    pub last_checkin: i64,
    /// Bump of the address that the host derived for the record.
    pub bump: u8,
    /// Caller-chosen string that, with the owner, names the record.
    pub seed: String,
    /// Funds held by the record.
    pub balance: u64,
}

/// The mathematical value of an [`Escrow`].
pub struct EscrowView {
    pub owner: Seq<u8>,
    pub beneficiary: Seq<u8>,
    pub deadline: int,
    pub last_checkin: int,
    pub bump: u8,
    pub seed: Seq<char>,
    pub balance: nat,
}

impl View for Escrow {
    type V = EscrowView;

    open spec fn view(&self) -> EscrowView {
        EscrowView {
            owner: self.owner@,
            beneficiary: self.beneficiary@,
            deadline: self.deadline as int,
            last_checkin: self.last_checkin as int,
            bump: self.bump,
            seed: self.seed@,
            balance: self.balance as nat,
        }
    }
}

/// The record that a key resolves to, if any.
pub open spec fn slot_view(slot: Option<Escrow>) -> Option<EscrowView> {
    match slot {
        Some(e) => Some(e@),
        None => None,
    }
}

/// An amount paid out, as a mathematical value.
pub open spec fn payout_view(r: Result<u64, ErrorCode>) -> Result<nat, ErrorCode> {
    match r {
        Ok(a) => Ok(a as nat),
        Err(k) => Err(k),
    }
}

/// What the host supplies to `initialize`: the signer who creates the record,
/// the current time and the bump of the record's address.
#[derive(Clone, Copy, Debug)]
pub struct Initialize {
    pub owner: Pubkey,
    pub now: i64,
    pub bump: u8,
}

/// What the host supplies to `deposit`: the signer.
#[derive(Clone, Copy, Debug)]
pub struct Deposit {
    pub owner: Pubkey,
}

/// What the host supplies to `checkin`: the signer and the current time.
#[derive(Clone, Copy, Debug)]
pub struct Checkin {
    pub owner: Pubkey,
    pub now: i64,
}

/// What the host supplies to `claim`: the claimant and the current time.
#[derive(Clone, Copy, Debug)]
pub struct Claim {
    pub beneficiary: Pubkey,
    pub now: i64,
}

/// What the host supplies to `cancel`: the signer.
#[derive(Clone, Copy, Debug)]
pub struct Cancel {
    pub owner: Pubkey,
}

/// Creating a record: accepted only with a deadline strictly after `now`.
pub open spec fn initialize_result(
    owner: Seq<u8>,
    now: int,
    bump: u8,
    deadline: int,
    beneficiary: Seq<u8>,
    seed: Seq<char>,
) -> Result<EscrowView, ErrorCode> {
    if deadline > now {
        Ok(EscrowView { owner, beneficiary, deadline, last_checkin: now, bump, seed, balance: 0 })
    } else {
        Err(ErrorCode::InvalidDeadline)
    }
}

/// A deposit: the owner adds a positive amount, at any time.
pub open spec fn deposit_step(caller: Seq<u8>, slot: Option<EscrowView>, amount: int) -> (
    Result<(), ErrorCode>,
    Option<EscrowView>,
) {
    match slot {
        None => (Err(ErrorCode::NotFound), slot),
        Some(e) => if caller != e.owner {
            (Err(ErrorCode::Unauthorized), slot)
        } else if amount <= 0 {
            (Err(ErrorCode::InvalidAmount), slot)
        } else {
            (Ok(()), Some(EscrowView { balance: (e.balance + amount) as nat, ..e }))
        },
    }
}

/// A check-in: the owner moves the deadline, strictly before it has passed,
/// to a time strictly after `now`.
pub open spec fn checkin_step(
    caller: Seq<u8>,
    now: int,
    slot: Option<EscrowView>,
    new_deadline: int,
) -> (Result<(), ErrorCode>, Option<EscrowView>) {
    match slot {
        None => (Err(ErrorCode::NotFound), slot),
        Some(e) => if caller != e.owner {
            (Err(ErrorCode::Unauthorized), slot)
        } else if now >= e.deadline {
            (Err(ErrorCode::DeadlineExceeded), slot)
        } else if new_deadline <= now {
            (Err(ErrorCode::InvalidDeadline), slot)
        } else {
            (Ok(()), Some(EscrowView { deadline: new_deadline, last_checkin: now, ..e }))
        },
    }
}

/// A claim: the beneficiary, at or after the deadline, takes the whole balance
/// and the record ends.
pub open spec fn claim_step(caller: Seq<u8>, now: int, slot: Option<EscrowView>) -> (
    Result<nat, ErrorCode>,
    Option<EscrowView>,
) {
    match slot {
        None => (Err(ErrorCode::NotFound), slot),
        Some(e) => if caller != e.beneficiary {
            (Err(ErrorCode::Unauthorized), slot)
        } else if now < e.deadline {
            (Err(ErrorCode::DeadlineNotReached), slot)
        } else {
            (Ok(e.balance), None)
        },
    }
}

/// A cancellation: the owner, at any time, takes the whole balance back and
/// the record ends.
pub open spec fn cancel_step(caller: Seq<u8>, slot: Option<EscrowView>) -> (
    Result<nat, ErrorCode>,
    Option<EscrowView>,
) {
    match slot {
        None => (Err(ErrorCode::NotFound), slot),
        Some(e) => if caller != e.owner {
            (Err(ErrorCode::Unauthorized), slot)
        } else {
            (Ok(e.balance), None)
        },
    }
}

/// Creates a record owned by the signer, holding nothing, whose deadline must
/// lie strictly after the current time.
pub fn initialize(ctx: &Initialize, deadline: i64, beneficiary: Pubkey, seed: String) -> (r: Result<
    Escrow,
    ErrorCode,
>)
    ensures
        match r {
            Ok(e) => initialize_result(
                ctx.owner@,
                ctx.now as int,
                ctx.bump,
                deadline as int,
                beneficiary@,
                seed@,
            ) == Ok::<EscrowView, ErrorCode>(e@),
            Err(k) => initialize_result(
                ctx.owner@,
                ctx.now as int,
                ctx.bump,
                deadline as int,
                beneficiary@,
                seed@,
            ) == Err::<EscrowView, ErrorCode>(k),
        },
{
    if deadline <= ctx.now {
        return Err(ErrorCode::InvalidDeadline);
    }
    Ok(
        Escrow {
            owner: ctx.owner,
            beneficiary,
            deadline,
            last_checkin: ctx.now,
            bump: ctx.bump,
            seed,
            balance: 0,
        },
    )
}

/// Adds `amount` to the balance of the record in `escrow`, on behalf of its owner.
pub fn deposit(ctx: &Deposit, escrow: &mut Option<Escrow>, amount: u64) -> (r: Result<
    (),
    ErrorCode,
>)
    requires
        old(escrow).is_some() ==> old(escrow).unwrap().balance + amount <= u64::MAX,
    ensures
        (r, slot_view(*final(escrow))) == deposit_step(
            ctx.owner@,
            slot_view(*old(escrow)),
            amount as int,
        ),
{
    match escrow {
        None => Err(ErrorCode::NotFound),
        Some(e) => {
            if !e.owner.same_as(&ctx.owner) {
                return Err(ErrorCode::Unauthorized);
            }
            if amount == 0 {
                return Err(ErrorCode::InvalidAmount);
            }
            e.balance = e.balance + amount;
            Ok(())
        },
    }
}

/// Moves the deadline of the record in `escrow` to `new_deadline`, on behalf
/// of its owner, strictly before the current deadline has passed.
pub fn checkin(ctx: &Checkin, escrow: &mut Option<Escrow>, new_deadline: i64) -> (r: Result<
    (),
    ErrorCode,
>)
    ensures
        (r, slot_view(*final(escrow))) == checkin_step(
            ctx.owner@,
            ctx.now as int,
            slot_view(*old(escrow)),
            new_deadline as int,
        ),
{
    match escrow {
        None => Err(ErrorCode::NotFound),
        Some(e) => {
            if !e.owner.same_as(&ctx.owner) {
                return Err(ErrorCode::Unauthorized);
            }
            if ctx.now >= e.deadline {
                return Err(ErrorCode::DeadlineExceeded);
            }
            if new_deadline <= ctx.now {
                return Err(ErrorCode::InvalidDeadline);
            }
            e.deadline = new_deadline;
            e.last_checkin = ctx.now;
            Ok(())
        },
    }
}

/// Ends the record in `escrow` on behalf of its beneficiary, at or after the
/// deadline, and returns the whole balance as the amount to pay them.
pub fn claim(ctx: &Claim, escrow: &mut Option<Escrow>) -> (r: Result<u64, ErrorCode>)
    ensures
        (payout_view(r), slot_view(*final(escrow))) == claim_step(
            ctx.beneficiary@,
            ctx.now as int,
            slot_view(*old(escrow)),
        ),
{
    let balance = match escrow {
        None => {
            return Err(ErrorCode::NotFound);
        },
        Some(e) => {
            if !e.beneficiary.same_as(&ctx.beneficiary) {
                return Err(ErrorCode::Unauthorized);
            }
            if ctx.now < e.deadline {
                return Err(ErrorCode::DeadlineNotReached);
            }
            e.balance
        },
    };
    *escrow = None;
    Ok(balance)
}

/// Ends the record in `escrow` on behalf of its owner, at any time, and
/// returns the whole balance as the amount to pay back to them.
pub fn cancel(ctx: &Cancel, escrow: &mut Option<Escrow>) -> (r: Result<u64, ErrorCode>)
    ensures
        (payout_view(r), slot_view(*final(escrow))) == cancel_step(
            ctx.owner@,
            slot_view(*old(escrow)),
        ),
{
    let balance = match escrow {
        None => {
            return Err(ErrorCode::NotFound);
        },
        Some(e) => {
            if !e.owner.same_as(&ctx.owner) {
                return Err(ErrorCode::Unauthorized);
            }
            e.balance
        },
    };
    *escrow = None;
    Ok(balance)
}

} // verus!
