//! The six escrow instructions as transitions of the escrow state. Each one
//! checks its rules, changes the state on success and leaves it untouched
//! on failure, and names the token transfers and the event that go with it.
use vstd::prelude::*;
use crate::key::AccountKey;
use crate::accounts::CreateEscrow;
use crate::state::{
    DisputeCreated, DisputeData, DisputeResolved, EscrowCreated, EscrowError, EscrowExpired,
    EscrowFunded, EscrowState, EscrowStatus, FundsReleased, TokenAccountRole, TokenTransfer,
    TransferAuthority, MAX_REASON_LEN, utf8_len,
};

verus! {

// ---------------------------------------------------------------------------
// create_escrow

/// The error that `create_escrow` returns, if any.
pub open spec fn create_error(amount: u64, expires_at: Option<i64>, now: i64) -> Option<EscrowError> {
    if expires_at matches Some(e) && e <= now {
        Some(EscrowError::InvalidExpirationTime)
    } else if amount == 0 {
        Some(EscrowError::InvalidAmount)
    } else {
        None
    }
}

/// The escrow that `create_escrow` writes.
pub open spec fn created_state(
    accounts: CreateEscrow,
    deal_id: u64,
    amount: u64,
    expires_at: Option<i64>,
    now: i64,
    bump: u8,
) -> EscrowState {
    EscrowState {
        deal_id,
        buyer: accounts.buyer,
        seller: accounts.seller,
        arbitrator: accounts.arbitrator,
        token_mint: accounts.token_mint,
        amount,
        amount_released: 0,
        status: EscrowStatus::Created,
        created_at: now,
        expires_at,
        dispute_data: None,
        bump,
    }
}

/// Opens a deal: `amount` tokens of `token_mint` that the buyer will pay
/// and the seller will receive, optionally expiring at `expires_at`.
/// `now` is the current time and `bump` the bump of the escrow address.
pub fn create_escrow(
    accounts: &CreateEscrow,
    deal_id: u64,
    amount: u64,
    expires_at: Option<i64>,
    now: i64,
    bump: u8,
) -> (r: Result<(EscrowState, EscrowCreated), EscrowError>)
    ensures
        match r {
            Ok((s, ev)) => {
                &&& create_error(amount, expires_at, now) is None
                &&& s == created_state(*accounts, deal_id, amount, expires_at, now, bump)
                &&& ev == (EscrowCreated {
                    escrow: accounts.escrow_state,
                    deal_id,
                    buyer: accounts.buyer,
                    seller: accounts.seller,
                    amount,
                })
            },
            Err(e) => create_error(amount, expires_at, now) == Some(e),
        },
{
    if let Some(expiry) = expires_at {
        if expiry <= now {
            return Err(EscrowError::InvalidExpirationTime);
        }
    }
    if amount == 0 {
        return Err(EscrowError::InvalidAmount);
    }
    let state = EscrowState {
        deal_id,
        buyer: accounts.buyer,
        seller: accounts.seller,
        arbitrator: accounts.arbitrator,
        token_mint: accounts.token_mint,
        amount,
        amount_released: 0,
        status: EscrowStatus::Created,
        created_at: now,
        expires_at,
        dispute_data: None,
        bump,
    };
    let event = EscrowCreated {
        escrow: accounts.escrow_state,
        deal_id,
        buyer: accounts.buyer,
        seller: accounts.seller,
        amount,
    };
    Ok((state, event))
}

// ---------------------------------------------------------------------------
// fund_escrow

/// The error that `fund_escrow` returns, if any.
pub open spec fn fund_error(s: EscrowState, now: i64) -> Option<EscrowError> {
    if !(s.status is Created) {
        Some(EscrowError::InvalidEscrowStatus)
    } else if s.expires_at matches Some(e) && now >= e {
        Some(EscrowError::EscrowExpired)
    } else {
        None
    }
}

/// The escrow after `fund_escrow`.
pub open spec fn funded_state(s: EscrowState) -> EscrowState {
    EscrowState { status: EscrowStatus::Funded, ..s }
}

/// The transfer by which the buyer pays the whole amount into the vault.
pub open spec fn funding_transfer(s: EscrowState) -> TokenTransfer {
    TokenTransfer {
        from: TokenAccountRole::BuyerTokens,
        to: TokenAccountRole::Vault,
        authority: TransferAuthority::Buyer,
        amount: s.amount,
    }
}

/// The buyer pays the agreed amount into the vault. `escrow` is the
/// address of the escrow account; `now` the current time, which matters
/// only when the escrow has an expiry.
pub fn fund_escrow(state: &mut EscrowState, escrow: AccountKey, now: i64) -> (r: Result<
    (TokenTransfer, EscrowFunded),
    EscrowError,
>)
    ensures
        match r {
            Ok((t, ev)) => {
                &&& fund_error(*old(state), now) is None
                &&& *final(state) == funded_state(*old(state))
                &&& t == funding_transfer(*old(state))
                &&& ev == (EscrowFunded { escrow, amount: old(state).amount })
            },
            Err(e) => fund_error(*old(state), now) == Some(e) && *final(state) == *old(state),
        },
{
    match state.status {
        EscrowStatus::Created => {},
        _ => return Err(EscrowError::InvalidEscrowStatus),
    }
    if let Some(expires_at) = state.expires_at {
        if now >= expires_at {
            return Err(EscrowError::EscrowExpired);
        }
    }
    let transfer = TokenTransfer {
        from: TokenAccountRole::BuyerTokens,
        to: TokenAccountRole::Vault,
        authority: TransferAuthority::Buyer,
        amount: state.amount,
    };
    state.status = EscrowStatus::Funded;
    Ok((transfer, EscrowFunded { escrow, amount: state.amount }))
}

// ---------------------------------------------------------------------------
// release_funds

/// The error that `release_funds` returns, if any.
pub open spec fn release_error(s: EscrowState, amount: u64) -> Option<EscrowError> {
    if !s.status.is_active() {
        Some(EscrowError::InvalidEscrowStatus)
    } else if amount == 0 {
        Some(EscrowError::InvalidAmount)
    } else if s.amount_released > s.amount {
        Some(EscrowError::ArithmeticOverflow)
    } else if amount > s.remaining() {
        Some(EscrowError::InsufficientFunds)
    } else {
        None
    }
}

/// The escrow after `amount` more tokens went to the seller: released in
/// full once everything is paid out, in part before that.
pub open spec fn released_state(s: EscrowState, amount: u64) -> EscrowState {
    let total = s.amount_released + amount;
    EscrowState {
        amount_released: total as u64,
        status: if total == s.amount {
            EscrowStatus::Released
        } else {
            EscrowStatus::PartiallyReleased
        },
        ..s
    }
}

/// The transfer that pays `amount` from the vault to the seller.
pub open spec fn release_transfer(amount: u64) -> TokenTransfer {
    TokenTransfer {
        from: TokenAccountRole::Vault,
        to: TokenAccountRole::SellerTokens,
        authority: TransferAuthority::Escrow,
        amount,
    }
}

/// Pays `amount` of what the escrow still holds to the seller.
pub fn release_funds(state: &mut EscrowState, escrow: AccountKey, amount: u64) -> (r: Result<
    (TokenTransfer, FundsReleased),
    EscrowError,
>)
    ensures
        match r {
            Ok((t, ev)) => {
                &&& release_error(*old(state), amount) is None
                &&& *final(state) == released_state(*old(state), amount)
                &&& t == release_transfer(amount)
                &&& ev == (FundsReleased {
                    escrow,
                    amount,
                    total_released: final(state).amount_released,
                })
            },
            Err(e) => release_error(*old(state), amount) == Some(e) && *final(state) == *old(state),
        },
{
    match state.status {
        EscrowStatus::Funded | EscrowStatus::PartiallyReleased => {},
        _ => return Err(EscrowError::InvalidEscrowStatus),
    }
    if amount == 0 {
        return Err(EscrowError::InvalidAmount);
    }
    let remaining = match state.amount.checked_sub(state.amount_released) {
        Some(r) => r,
        None => return Err(EscrowError::ArithmeticOverflow),
    };
    if amount > remaining {
        return Err(EscrowError::InsufficientFunds);
    }
    let transfer = TokenTransfer {
        from: TokenAccountRole::Vault,
        to: TokenAccountRole::SellerTokens,
        authority: TransferAuthority::Escrow,
        amount,
    };
    let total = match state.amount_released.checked_add(amount) {
        Some(t) => t,
        None => return Err(EscrowError::ArithmeticOverflow),
    };
    state.amount_released = total;
    if total == state.amount {
        state.status = EscrowStatus::Released;
    } else {
        state.status = EscrowStatus::PartiallyReleased;
    }
    Ok((transfer, FundsReleased { escrow, amount, total_released: total }))
}

// ---------------------------------------------------------------------------
// create_dispute

/// The error that `create_dispute` returns, if any.
pub open spec fn dispute_error(s: EscrowState, reason: Seq<char>) -> Option<EscrowError> {
    if !s.status.is_active() {
        Some(EscrowError::InvalidEscrowStatus)
    } else if utf8_len(reason) > MAX_REASON_LEN {
        Some(EscrowError::DisputeReasonTooLong)
    } else {
        None
    }
}

/// The escrow after `created_by` disputed it at time `now`.
pub open spec fn disputed_state(
    s: EscrowState,
    created_by: AccountKey,
    reason: String,
    now: i64,
) -> EscrowState {
    EscrowState {
        status: EscrowStatus::Disputed,
        dispute_data: Some(DisputeData { created_at: now, created_by, reason, resolved_at: None }),
        ..s
    }
}

/// `created_by` (the buyer or the seller) disputes a funded escrow, giving
/// a reason of at most 280 bytes; from then on only the arbitrator decides
/// where the tokens go.
pub fn create_dispute(
    state: &mut EscrowState,
    escrow: AccountKey,
    created_by: AccountKey,
    reason: String,
    now: i64,
) -> (r: Result<DisputeCreated, EscrowError>)
    ensures
        match r {
            Ok(ev) => {
                &&& dispute_error(*old(state), reason@) is None
                &&& *final(state) == disputed_state(*old(state), created_by, reason, now)
                &&& ev == (DisputeCreated { escrow, created_by })
            },
            Err(e) => dispute_error(*old(state), reason@) == Some(e) && *final(state) == *old(state),
        },
{
    match state.status {
        EscrowStatus::Funded | EscrowStatus::PartiallyReleased => {},
        _ => return Err(EscrowError::InvalidEscrowStatus),
    }
    if reason.as_str().as_bytes().len() > MAX_REASON_LEN {
        return Err(EscrowError::DisputeReasonTooLong);
    }
    state.status = EscrowStatus::Disputed;
    state.dispute_data = Some(DisputeData { created_at: now, created_by, reason, resolved_at: None });
    Ok(DisputeCreated { escrow, created_by })
}

// ---------------------------------------------------------------------------
// resolve_dispute

/// The error that `resolve_dispute` returns, if any.
pub open spec fn resolve_error(s: EscrowState, to_seller: u64, to_buyer: u64) -> Option<EscrowError> {
    if !(s.status is Disputed) {
        Some(EscrowError::InvalidEscrowStatus)
    } else if s.amount_released > s.amount {
        Some(EscrowError::ArithmeticOverflow)
    } else if to_seller + to_buyer > u64::MAX {
        Some(EscrowError::ArithmeticOverflow)
    } else if to_seller + to_buyer != s.remaining() {
        Some(EscrowError::InvalidResolutionAmounts)
    } else {
        None
    }
}

/// The escrow after the arbitrator settled its dispute at time `now`.
pub open spec fn resolved_state(s: EscrowState, now: i64) -> EscrowState {
    EscrowState {
        status: EscrowStatus::Resolved,
        amount_released: s.amount,
        dispute_data: match s.dispute_data {
            Some(d) => Some(DisputeData { resolved_at: Some(now), ..d }),
            None => None,
        },
        ..s
    }
}

/// The transfers that settle a dispute: first the seller's share, then the
/// buyer's, each only when it is not zero.
pub open spec fn resolution_transfers(to_seller: u64, to_buyer: u64) -> Seq<TokenTransfer> {
    let seller_part = if to_seller > 0 {
        seq![release_transfer(to_seller)]
    } else {
        Seq::empty()
    };
    let buyer_part = if to_buyer > 0 {
        seq![refund_transfer(to_buyer)]
    } else {
        Seq::empty()
    };
    seller_part + buyer_part
}

/// The arbitrator splits what the disputed escrow still holds between the
/// seller and the buyer; the two shares must add up to exactly that.
pub fn resolve_dispute(
    state: &mut EscrowState,
    escrow: AccountKey,
    release_to_seller: u64,
    refund_to_buyer: u64,
    now: i64,
) -> (r: Result<(Vec<TokenTransfer>, DisputeResolved), EscrowError>)
    ensures
        match r {
            Ok((ts, ev)) => {
                &&& resolve_error(*old(state), release_to_seller, refund_to_buyer) is None
                &&& *final(state) == resolved_state(*old(state), now)
                &&& ts@ == resolution_transfers(release_to_seller, refund_to_buyer)
                &&& ev == (DisputeResolved { escrow, release_to_seller, refund_to_buyer })
            },
            Err(e) => {
                &&& resolve_error(*old(state), release_to_seller, refund_to_buyer) == Some(e)
                &&& *final(state) == *old(state)
            },
        },
{
    match state.status {
        EscrowStatus::Disputed => {},
        _ => return Err(EscrowError::InvalidEscrowStatus),
    }
    let remaining = match state.amount.checked_sub(state.amount_released) {
        Some(r) => r,
        None => return Err(EscrowError::ArithmeticOverflow),
    };
    let total = match release_to_seller.checked_add(refund_to_buyer) {
        Some(t) => t,
        None => return Err(EscrowError::ArithmeticOverflow),
    };
    if total != remaining {
        return Err(EscrowError::InvalidResolutionAmounts);
    }
    let mut transfers: Vec<TokenTransfer> = Vec::new();
    if release_to_seller > 0 {
        transfers.push(
            TokenTransfer {
                from: TokenAccountRole::Vault,
                to: TokenAccountRole::SellerTokens,
                authority: TransferAuthority::Escrow,
                amount: release_to_seller,
            },
        );
    }
    if refund_to_buyer > 0 {
        transfers.push(
            TokenTransfer {
                from: TokenAccountRole::Vault,
                to: TokenAccountRole::BuyerTokens,
                authority: TransferAuthority::Escrow,
                amount: refund_to_buyer,
            },
        );
    }
    assert(transfers@ =~= resolution_transfers(release_to_seller, refund_to_buyer));
    let dispute = state.dispute_data.take();
    state.dispute_data = match dispute {
        Some(d) => Some(DisputeData { resolved_at: Some(now), ..d }),
        None => None,
    };
    state.status = EscrowStatus::Resolved;
    state.amount_released = state.amount;
    Ok((transfers, DisputeResolved { escrow, release_to_seller, refund_to_buyer }))
}

// ---------------------------------------------------------------------------
// refund_expired

/// The error that `refund_expired` returns, if any.
pub open spec fn refund_error(s: EscrowState, now: i64) -> Option<EscrowError> {
    match s.expires_at {
        None => Some(EscrowError::NoExpirationSet),
        Some(e) => if now < e {
            Some(EscrowError::EscrowNotExpired)
        } else if !s.status.is_active() {
            Some(EscrowError::InvalidEscrowStatus)
        } else if s.amount_released > s.amount {
            Some(EscrowError::ArithmeticOverflow)
        } else {
            None
        },
    }
}

/// The escrow after its expiry was settled.
pub open spec fn expired_state(s: EscrowState) -> EscrowState {
    EscrowState { status: EscrowStatus::Expired, ..s }
}

/// The transfer that pays `amount` from the vault back to the buyer.
pub open spec fn refund_transfer(amount: u64) -> TokenTransfer {
    TokenTransfer {
        from: TokenAccountRole::Vault,
        to: TokenAccountRole::BuyerTokens,
        authority: TransferAuthority::Escrow,
        amount,
    }
}

/// Once the expiry has passed, whatever the escrow still holds goes back to
/// the buyer (no transfer when nothing is left).
pub fn refund_expired(state: &mut EscrowState, escrow: AccountKey, now: i64) -> (r: Result<
    (Option<TokenTransfer>, EscrowExpired),
    EscrowError,
>)
    ensures
        match r {
            Ok((t, ev)) => {
                &&& refund_error(*old(state), now) is None
                &&& *final(state) == expired_state(*old(state))
                &&& t == (if old(state).remaining() > 0 {
                    Some(refund_transfer((old(state).remaining()) as u64))
                } else {
                    None
                })
                &&& ev == (EscrowExpired { escrow, refunded_amount: old(state).remaining() as u64 })
            },
            Err(e) => refund_error(*old(state), now) == Some(e) && *final(state) == *old(state),
        },
{
    let expires_at = match state.expires_at {
        Some(e) => e,
        None => return Err(EscrowError::NoExpirationSet),
    };
    if now < expires_at {
        return Err(EscrowError::EscrowNotExpired);
    }
    match state.status {
        EscrowStatus::Funded | EscrowStatus::PartiallyReleased => {},
        _ => return Err(EscrowError::InvalidEscrowStatus),
    }
    let remaining = match state.amount.checked_sub(state.amount_released) {
        Some(r) => r,
        None => return Err(EscrowError::ArithmeticOverflow),
    };
    let transfer = if remaining > 0 {
        Some(
            TokenTransfer {
                from: TokenAccountRole::Vault,
                to: TokenAccountRole::BuyerTokens,
                authority: TransferAuthority::Escrow,
                amount: remaining,
            },
        )
    } else {
        None
    };
    state.status = EscrowStatus::Expired;
    Ok((transfer, EscrowExpired { escrow, refunded_amount: remaining }))
}

} // verus!
