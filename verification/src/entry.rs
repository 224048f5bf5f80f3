//! The instructions as a program runs them: first the account checks, then
//! the instruction's own rules. An account error wins over any error of the
//! instruction, and either leaves the escrow as it was.
use vstd::prelude::*;
use crate::key::AccountKey;
use crate::accounts::{
    ConstraintViolation, CreateDispute, CreateEscrow, FundEscrow, RefundExpired, ReleaseFunds,
    ResolveDispute,
};
use crate::address::{canonical_bump, escrow_base_seeds_spec};
use crate::instructions::{
    create_error, create_escrow, created_state, create_dispute, dispute_error, disputed_state, expired_state, fund_error, fund_escrow,
    funded_state, funding_transfer, refund_error, refund_expired, refund_transfer,
    release_error, release_funds, release_transfer, released_state, resolution_transfers,
    resolve_dispute, resolve_error, resolved_state,
};
use crate::state::{
    DisputeCreated, DisputeResolved, EscrowCreated, EscrowError, EscrowExpired, EscrowFunded, EscrowState,
    FundsReleased, TokenTransfer,
};

verus! {

/// Why an instruction was refused: its accounts, or its own rules.
#[derive(Clone, Copy, Debug, PartialEq, Eq)]
pub enum InstructionError {
    Accounts(ConstraintViolation),
    Escrow(EscrowError),
}

/// `create_escrow` on the accounts `accounts` of the program `program_id`:
/// the escrow is opened at the deal's address with the canonical bump.
pub fn create_escrow_checked(
    accounts: &CreateEscrow,
    program_id: &AccountKey,
    deal_id: u64,
    amount: u64,
    expires_at: Option<i64>,
    now: i64,
) -> (r: Result<(EscrowState, EscrowCreated), InstructionError>)
    ensures
        accounts.violation(deal_id, *program_id) matches Some(v) ==> r matches Err(
            InstructionError::Accounts(w),
        ) && w == v,
        accounts.violation(deal_id, *program_id) is None ==> match r {
            Ok((s, ev)) => {
                &&& create_error(amount, expires_at, now) is None
                &&& canonical_bump(escrow_base_seeds_spec(deal_id, accounts.buyer@), program_id@, s.bump, accounts.escrow_state@)
                &&& s == created_state(*accounts, deal_id, amount, expires_at, now, s.bump)
                &&& ev == (EscrowCreated {
                    escrow: accounts.escrow_state,
                    deal_id,
                    buyer: accounts.buyer,
                    seller: accounts.seller,
                    amount,
                })
            },
            Err(InstructionError::Escrow(e)) => create_error(amount, expires_at, now) == Some(e),
            Err(InstructionError::Accounts(_)) => false,
        },
{
    let bump = match accounts.validate(deal_id, program_id) {
        Ok(b) => b,
        Err(v) => return Err(InstructionError::Accounts(v)),
    };
    match create_escrow(accounts, deal_id, amount, expires_at, now, bump) {
        Ok(out) => Ok(out),
        Err(e) => Err(InstructionError::Escrow(e)),
    }
}

/// `fund_escrow` on the accounts `accounts` of the program `program_id`.
pub fn fund_escrow_checked(
    accounts: &FundEscrow,
    state: &mut EscrowState,
    program_id: &AccountKey,
    now: i64,
) -> (r: Result<(TokenTransfer, EscrowFunded), InstructionError>)
    ensures
        accounts.violation(*old(state), *program_id) matches Some(v) ==> {
            &&& r matches Err(InstructionError::Accounts(w)) && w == v
            &&& *final(state) == *old(state)
        },
        accounts.violation(*old(state), *program_id) is None ==> match r {
            Ok((t, ev)) => {
                &&& fund_error(*old(state), now) is None
                &&& *final(state) == funded_state(*old(state))
                &&& t == funding_transfer(*old(state))
                &&& ev == (EscrowFunded { escrow: accounts.escrow_state, amount: old(state).amount })
            },
            Err(InstructionError::Escrow(e)) => fund_error(*old(state), now) == Some(e)
                && *final(state) == *old(state),
            Err(InstructionError::Accounts(_)) => false,
        },
{
    match accounts.validate(state, program_id) {
        Ok(()) => {},
        Err(v) => return Err(InstructionError::Accounts(v)),
    }
    match fund_escrow(state, accounts.escrow_state, now) {
        Ok(out) => Ok(out),
        Err(e) => Err(InstructionError::Escrow(e)),
    }
}

/// `release_funds` on the accounts `accounts` of the program `program_id`.
pub fn release_funds_checked(
    accounts: &ReleaseFunds,
    state: &mut EscrowState,
    program_id: &AccountKey,
    amount: u64,
) -> (r: Result<(TokenTransfer, FundsReleased), InstructionError>)
    ensures
        accounts.violation(*old(state), *program_id) matches Some(v) ==> {
            &&& r matches Err(InstructionError::Accounts(w)) && w == v
            &&& *final(state) == *old(state)
        },
        accounts.violation(*old(state), *program_id) is None ==> match r {
            Ok((t, ev)) => {
                &&& release_error(*old(state), amount) is None
                &&& *final(state) == released_state(*old(state), amount)
                &&& t == release_transfer(amount)
                &&& ev == (FundsReleased {
                    escrow: accounts.escrow_state,
                    amount,
                    total_released: final(state).amount_released,
                })
            },
            Err(InstructionError::Escrow(e)) => release_error(*old(state), amount) == Some(e)
                && *final(state) == *old(state),
            Err(InstructionError::Accounts(_)) => false,
        },
{
    match accounts.validate(state, program_id) {
        Ok(()) => {},
        Err(v) => return Err(InstructionError::Accounts(v)),
    }
    match release_funds(state, accounts.escrow_state, amount) {
        Ok(out) => Ok(out),
        Err(e) => Err(InstructionError::Escrow(e)),
    }
}

/// `create_dispute` on the accounts `accounts` of the program `program_id`;
/// the dispute is opened by `accounts.dispute_creator`.
pub fn create_dispute_checked(
    accounts: &CreateDispute,
    state: &mut EscrowState,
    program_id: &AccountKey,
    reason: String,
    now: i64,
) -> (r: Result<DisputeCreated, InstructionError>)
    ensures
        accounts.violation(*old(state), *program_id) matches Some(v) ==> {
            &&& r matches Err(InstructionError::Accounts(w)) && w == v
            &&& *final(state) == *old(state)
        },
        accounts.violation(*old(state), *program_id) is None ==> match r {
            Ok(ev) => {
                &&& dispute_error(*old(state), reason@) is None
                &&& *final(state) == disputed_state(*old(state), accounts.dispute_creator, reason, now)
                &&& ev == (DisputeCreated {
                    escrow: accounts.escrow_state,
                    created_by: accounts.dispute_creator,
                })
            },
            Err(InstructionError::Escrow(e)) => dispute_error(*old(state), reason@) == Some(e)
                && *final(state) == *old(state),
            Err(InstructionError::Accounts(_)) => false,
        },
{
    match accounts.validate(state, program_id) {
        Ok(()) => {},
        Err(v) => return Err(InstructionError::Accounts(v)),
    }
    match create_dispute(state, accounts.escrow_state, accounts.dispute_creator, reason, now) {
        Ok(out) => Ok(out),
        Err(e) => Err(InstructionError::Escrow(e)),
    }
}

/// `resolve_dispute` on the accounts `accounts` of the program `program_id`.
pub fn resolve_dispute_checked(
    accounts: &ResolveDispute,
    state: &mut EscrowState,
    program_id: &AccountKey,
    release_to_seller: u64,
    refund_to_buyer: u64,
    now: i64,
) -> (r: Result<(Vec<TokenTransfer>, DisputeResolved), InstructionError>)
    ensures
        accounts.violation(*old(state), *program_id) matches Some(v) ==> {
            &&& r matches Err(InstructionError::Accounts(w)) && w == v
            &&& *final(state) == *old(state)
        },
        accounts.violation(*old(state), *program_id) is None ==> match r {
            Ok((ts, ev)) => {
                &&& resolve_error(*old(state), release_to_seller, refund_to_buyer) is None
                &&& *final(state) == resolved_state(*old(state), now)
                &&& ts@ == resolution_transfers(release_to_seller, refund_to_buyer)
                &&& ev == (DisputeResolved {
                    escrow: accounts.escrow_state,
                    release_to_seller,
                    refund_to_buyer,
                })
            },
            Err(InstructionError::Escrow(e)) => {
                &&& resolve_error(*old(state), release_to_seller, refund_to_buyer) == Some(e)
                &&& *final(state) == *old(state)
            },
            Err(InstructionError::Accounts(_)) => false,
        },
{
    match accounts.validate(state, program_id) {
        Ok(()) => {},
        Err(v) => return Err(InstructionError::Accounts(v)),
    }
    match resolve_dispute(state, accounts.escrow_state, release_to_seller, refund_to_buyer, now) {
        Ok(out) => Ok(out),
        Err(e) => Err(InstructionError::Escrow(e)),
    }
}

/// `refund_expired` on the accounts `accounts` of the program `program_id`.
pub fn refund_expired_checked(
    accounts: &RefundExpired,
    state: &mut EscrowState,
    program_id: &AccountKey,
    now: i64,
) -> (r: Result<(Option<TokenTransfer>, EscrowExpired), InstructionError>)
    ensures
        accounts.violation(*old(state), *program_id) matches Some(v) ==> {
            &&& r matches Err(InstructionError::Accounts(w)) && w == v
            &&& *final(state) == *old(state)
        },
        accounts.violation(*old(state), *program_id) is None ==> match r {
            Ok((t, ev)) => {
                &&& refund_error(*old(state), now) is None
                &&& *final(state) == expired_state(*old(state))
                &&& t == (if old(state).remaining() > 0 {
                    Some(refund_transfer((old(state).remaining()) as u64))
                } else {
                    None
                })
                &&& ev == (EscrowExpired {
                    escrow: accounts.escrow_state,
                    refunded_amount: old(state).remaining() as u64,
                })
            },
            Err(InstructionError::Escrow(e)) => refund_error(*old(state), now) == Some(e)
                && *final(state) == *old(state),
            Err(InstructionError::Accounts(_)) => false,
        },
{
    match accounts.validate(state, program_id) {
        Ok(()) => {},
        Err(v) => return Err(InstructionError::Accounts(v)),
    }
    match refund_expired(state, accounts.escrow_state, now) {
        Ok(out) => Ok(out),
        Err(e) => Err(InstructionError::Escrow(e)),
    }
}

} // verus!
