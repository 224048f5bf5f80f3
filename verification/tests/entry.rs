use anchor_lang::prelude::Pubkey;
use escrow_engine::accounts::{
    AccountName, ConstraintKind, ConstraintViolation, CreateDispute, FundEscrow, RefundExpired,
    ReleaseFunds, ResolveDispute, TokenAccountData,
};
use escrow_engine::entry::{
    create_dispute_checked, fund_escrow_checked, refund_expired_checked, release_funds_checked,
    resolve_dispute_checked, InstructionError,
};
use escrow_engine::key::AccountKey;
use escrow_engine::state::{EscrowError, EscrowState, EscrowStatus};

fn key(b: u8) -> AccountKey {
    AccountKey::new([b; 32])
}

fn program() -> AccountKey {
    key(77)
}

fn setup(status: EscrowStatus, expires_at: Option<i64>) -> (EscrowState, AccountKey) {
    let (p, bump) = Pubkey::find_program_address(
        &[b"escrow", &42u64.to_le_bytes(), &key(1).bytes],
        &Pubkey::new_from_array(program().bytes),
    );
    let s = EscrowState {
        deal_id: 42,
        buyer: key(1),
        seller: key(2),
        arbitrator: key(3),
        token_mint: key(4),
        amount: 500,
        amount_released: 0,
        status,
        created_at: 0,
        expires_at,
        dispute_data: None,
        bump,
    };
    (s, AccountKey::new(p.to_bytes()))
}

fn tokens(mint: AccountKey, owner: AccountKey) -> TokenAccountData {
    TokenAccountData { mint, owner }
}

fn accounts_error(kind: ConstraintKind, account: AccountName) -> InstructionError {
    InstructionError::Accounts(ConstraintViolation { kind, account })
}

#[test]
fn checked_fund_runs_after_account_checks() {
    let (mut s, escrow) = setup(EscrowStatus::Created, None);
    let accounts = FundEscrow {
        escrow_state: escrow,
        buyer: key(1),
        buyer_signed: true,
        vault_token_account: tokens(key(4), escrow),
        buyer_token_account: tokens(key(4), key(1)),
        token_mint: key(4),
    };
    let (t, ev) = fund_escrow_checked(&accounts, &mut s, &program(), 0).unwrap();
    assert_eq!(t.amount, 500);
    assert_eq!(ev.escrow, escrow);
    assert_eq!(s.status, EscrowStatus::Funded);
    // an account error wins over the status error
    let before = s.clone();
    let wrong = FundEscrow { buyer_token_account: tokens(key(5), key(1)), ..accounts };
    assert_eq!(
        fund_escrow_checked(&wrong, &mut s, &program(), 0),
        Err(accounts_error(ConstraintKind::ConstraintRaw, AccountName::BuyerTokenAccount))
    );
    assert_eq!(
        fund_escrow_checked(&accounts, &mut s, &program(), 0),
        Err(InstructionError::Escrow(EscrowError::InvalidEscrowStatus))
    );
    assert_eq!(s, before);
}

#[test]
fn checked_release_refuses_strangers() {
    let (mut s, escrow) = setup(EscrowStatus::Funded, None);
    let accounts = ReleaseFunds {
        escrow_state: escrow,
        buyer: key(1),
        seller: key(2),
        authority: key(66),
        authority_signed: true,
        vault_token_account: tokens(key(4), escrow),
        seller_token_account: tokens(key(4), key(2)),
        token_mint: key(4),
    };
    let before = s.clone();
    assert_eq!(
        release_funds_checked(&accounts, &mut s, &program(), 100),
        Err(accounts_error(ConstraintKind::ConstraintRaw, AccountName::Authority))
    );
    assert_eq!(s, before);
    let by_arbitrator = ReleaseFunds { authority: key(3), ..accounts };
    let (t, ev) = release_funds_checked(&by_arbitrator, &mut s, &program(), 100).unwrap();
    assert_eq!(t.amount, 100);
    assert_eq!(ev.total_released, 100);
    assert_eq!(
        release_funds_checked(&by_arbitrator, &mut s, &program(), 0),
        Err(InstructionError::Escrow(EscrowError::InvalidAmount))
    );
}

#[test]
fn checked_dispute_and_resolution() {
    let (mut s, escrow) = setup(EscrowStatus::Funded, None);
    let dispute = CreateDispute { escrow_state: escrow, dispute_creator: key(2), creator_signed: true, escrow_state_check: escrow };
    let ev = create_dispute_checked(&dispute, &mut s, &program(), "broken".to_string(), 7).unwrap();
    assert_eq!(ev.created_by, key(2));
    assert_eq!(s.dispute_data.as_ref().unwrap().created_by, key(2));
    let resolve = ResolveDispute {
        escrow_state: escrow,
        arbitrator: key(3),
        arbitrator_signed: true,
        buyer: key(1),
        seller: key(2),
        vault_token_account: tokens(key(4), escrow),
        buyer_token_account: tokens(key(4), key(1)),
        seller_token_account: tokens(key(4), key(2)),
    };
    let to_stranger = ResolveDispute {
        seller: key(66),
        seller_token_account: tokens(key(4), key(66)),
        ..resolve
    };
    let before = s.clone();
    assert_eq!(
        resolve_dispute_checked(&to_stranger, &mut s, &program(), 500, 0, 8),
        Err(accounts_error(ConstraintKind::ConstraintHasOne, AccountName::EscrowState))
    );
    assert_eq!(s, before);
    assert_eq!(
        resolve_dispute_checked(&resolve, &mut s, &program(), 400, 0, 8),
        Err(InstructionError::Escrow(EscrowError::InvalidResolutionAmounts))
    );
    let (ts, _) = resolve_dispute_checked(&resolve, &mut s, &program(), 400, 100, 8).unwrap();
    assert_eq!(ts.len(), 2);
    assert_eq!(s.status, EscrowStatus::Resolved);
}

#[test]
fn checked_refund() {
    let (mut s, escrow) = setup(EscrowStatus::Funded, Some(100));
    let accounts = RefundExpired {
        escrow_state: escrow,
        buyer: key(1),
        vault_token_account: tokens(key(4), escrow),
        buyer_token_account: tokens(key(4), key(1)),
    };
    assert_eq!(
        refund_expired_checked(&accounts, &mut s, &program(), 99),
        Err(InstructionError::Escrow(EscrowError::EscrowNotExpired))
    );
    let wrong = RefundExpired { buyer_token_account: tokens(key(4), key(2)), ..accounts };
    assert_eq!(
        refund_expired_checked(&wrong, &mut s, &program(), 99),
        Err(accounts_error(ConstraintKind::ConstraintRaw, AccountName::BuyerTokenAccount))
    );
    let (t, ev) = refund_expired_checked(&accounts, &mut s, &program(), 100).unwrap();
    assert_eq!(t.unwrap().amount, 500);
    assert_eq!(ev.refunded_amount, 500);
    assert_eq!(s.status, EscrowStatus::Expired);
}

#[test]
fn checked_create_stores_the_canonical_bump() {
    let (p, bump) = Pubkey::find_program_address(
        &[b"escrow", &42u64.to_le_bytes(), &key(1).bytes],
        &Pubkey::new_from_array(program().bytes),
    );
    let accounts = escrow_engine::accounts::CreateEscrow {
        escrow_state: AccountKey::new(p.to_bytes()),
        buyer: key(1),
        buyer_signed: true,
        seller: key(2),
        arbitrator: key(3),
        token_mint: key(4),
    };
    let (s, ev) =
        escrow_engine::entry::create_escrow_checked(&accounts, &program(), 42, 500, None, 10).unwrap();
    assert_eq!(s.bump, bump);
    assert_eq!(s.status, EscrowStatus::Created);
    assert_eq!(ev.escrow, accounts.escrow_state);
    // an account error wins over the amount error
    let unsigned = escrow_engine::accounts::CreateEscrow { buyer_signed: false, ..accounts };
    assert_eq!(
        escrow_engine::entry::create_escrow_checked(&unsigned, &program(), 42, 0, None, 10),
        Err(accounts_error(ConstraintKind::AccountNotSigner, AccountName::Buyer))
    );
    assert_eq!(
        escrow_engine::entry::create_escrow_checked(&accounts, &program(), 42, 0, None, 10),
        Err(InstructionError::Escrow(EscrowError::InvalidAmount))
    );
}
