use anchor_lang::prelude::Pubkey;
use escrow_engine::accounts::{
    AccountName, ConstraintKind, ConstraintViolation, CreateDispute, FundEscrow, RefundExpired,
    ReleaseFunds, ResolveDispute, TokenAccountData,
};
use escrow_engine::address::{escrow_address, escrow_seeds, is_escrow_address, u64_le_bytes};
use escrow_engine::key::AccountKey;
use escrow_engine::state::{EscrowState, EscrowStatus};

fn key(b: u8) -> AccountKey {
    AccountKey::new([b; 32])
}

fn program() -> AccountKey {
    key(77)
}

fn pda(deal_id: u64, buyer: &AccountKey) -> (AccountKey, u8) {
    let (p, bump) = Pubkey::find_program_address(
        &[b"escrow", &deal_id.to_le_bytes(), &buyer.bytes],
        &Pubkey::new_from_array(program().bytes),
    );
    (AccountKey::new(p.to_bytes()), bump)
}

fn state() -> (EscrowState, AccountKey) {
    let (escrow, bump) = pda(42, &key(1));
    let s = EscrowState {
        deal_id: 42,
        buyer: key(1),
        seller: key(2),
        arbitrator: key(3),
        token_mint: key(4),
        amount: 500,
        amount_released: 0,
        status: EscrowStatus::Funded,
        created_at: 0,
        expires_at: None,
        dispute_data: None,
        bump,
    };
    (s, escrow)
}

fn tokens(mint: AccountKey, owner: AccountKey) -> TokenAccountData {
    TokenAccountData { mint, owner }
}

fn err(kind: ConstraintKind, account: AccountName) -> Result<(), ConstraintViolation> {
    Err(ConstraintViolation { kind, account })
}

#[test]
fn le_bytes_of_deal_id() {
    assert_eq!(u64_le_bytes(0x0102_0304_0506_0708), vec![8, 7, 6, 5, 4, 3, 2, 1]);
    assert_eq!(u64_le_bytes(42), 42u64.to_le_bytes().to_vec());
}

#[test]
fn escrow_seeds_layout() {
    let seeds = escrow_seeds(42, &key(1), 253);
    assert_eq!(seeds.len(), 4);
    assert_eq!(seeds[0], b"escrow".to_vec());
    assert_eq!(seeds[1], 42u64.to_le_bytes().to_vec());
    assert_eq!(seeds[2], vec![1u8; 32]);
    assert_eq!(seeds[3], vec![253u8]);
}

#[test]
fn escrow_address_matches_the_derived_address() {
    let (expected, bump) = pda(42, &key(1));
    let got = escrow_address(42, &key(1), bump, &program()).unwrap();
    assert_eq!(got, expected);
    assert_ne!(got, program());
    assert_ne!(got, key(1));
    assert!(is_escrow_address(&expected, 42, &key(1), bump, &program()));
    assert!(!is_escrow_address(&expected, 43, &key(1), bump, &program()));
    assert!(!is_escrow_address(&expected, 42, &key(2), bump, &program()));
    assert!(!is_escrow_address(&key(5), 42, &key(1), bump, &program()));
}

#[test]
fn same_as_compares_every_byte() {
    let a = key(1);
    let mut b = [1u8; 32];
    assert!(a.same_as(&AccountKey::new(b)));
    b[31] = 2;
    assert!(!a.same_as(&AccountKey::new(b)));
}

#[test]
fn fund_escrow_accounts() {
    let (s, escrow) = state();
    let good = FundEscrow {
        escrow_state: escrow,
        buyer: key(1),
        buyer_signed: true,
        vault_token_account: tokens(key(4), escrow),
        buyer_token_account: tokens(key(4), key(1)),
        token_mint: key(4),
    };
    assert_eq!(good.validate(&s, &program()), Ok(()));
    let bad = FundEscrow { escrow_state: key(8), vault_token_account: tokens(key(4), key(8)), ..good };
    assert_eq!(bad.validate(&s, &program()), err(ConstraintKind::ConstraintSeeds, AccountName::EscrowState));
    let bad = FundEscrow { token_mint: key(5), vault_token_account: tokens(key(5), escrow), ..good };
    assert_eq!(bad.validate(&s, &program()), err(ConstraintKind::ConstraintHasOne, AccountName::EscrowState));
    let bad = FundEscrow { buyer_token_account: tokens(key(5), key(1)), ..good };
    assert_eq!(bad.validate(&s, &program()), err(ConstraintKind::ConstraintRaw, AccountName::BuyerTokenAccount));
    let bad = FundEscrow { buyer_token_account: tokens(key(4), key(2)), ..good };
    assert_eq!(bad.validate(&s, &program()), err(ConstraintKind::ConstraintRaw, AccountName::BuyerTokenAccount));
}

#[test]
fn release_funds_accounts() {
    let (s, escrow) = state();
    let good = ReleaseFunds {
        escrow_state: escrow,
        buyer: key(1),
        seller: key(2),
        authority: key(1),
        authority_signed: true,
        vault_token_account: tokens(key(4), escrow),
        seller_token_account: tokens(key(4), key(2)),
        token_mint: key(4),
    };
    assert_eq!(good.validate(&s, &program()), Ok(()));
    let bad = ReleaseFunds { seller: key(3), seller_token_account: tokens(key(4), key(3)), ..good };
    assert_eq!(bad.validate(&s, &program()), err(ConstraintKind::ConstraintHasOne, AccountName::EscrowState));
    for party in [key(2), key(3)] {
        let other = ReleaseFunds { authority: party, ..good };
        assert_eq!(other.validate(&s, &program()), Ok(()));
    }
    let stranger = ReleaseFunds { authority: key(66), ..good };
    assert_eq!(stranger.validate(&s, &program()), err(ConstraintKind::ConstraintRaw, AccountName::Authority));
    let bad = ReleaseFunds { vault_token_account: tokens(key(4), key(1)), ..good };
    assert_eq!(bad.validate(&s, &program()), err(ConstraintKind::ConstraintRaw, AccountName::VaultTokenAccount));
    let bad = ReleaseFunds { seller_token_account: tokens(key(4), key(1)), ..good };
    assert_eq!(bad.validate(&s, &program()), err(ConstraintKind::ConstraintRaw, AccountName::SellerTokenAccount));
    let bad = ReleaseFunds { buyer: key(2), ..good };
    assert_eq!(bad.validate(&s, &program()), err(ConstraintKind::ConstraintSeeds, AccountName::EscrowState));
}

#[test]
fn create_dispute_accounts() {
    let (s, escrow) = state();
    let good = CreateDispute { escrow_state: escrow, dispute_creator: key(1), creator_signed: true, escrow_state_check: escrow };
    assert_eq!(good.validate(&s, &program()), Ok(()));
    let seller = CreateDispute { dispute_creator: key(2), ..good };
    assert_eq!(seller.validate(&s, &program()), Ok(()));
    let stranger = CreateDispute { dispute_creator: key(3), ..good };
    assert_eq!(stranger.validate(&s, &program()), err(ConstraintKind::ConstraintRaw, AccountName::EscrowStateCheck));
    let other = CreateDispute { escrow_state_check: key(8), ..good };
    assert_eq!(other.validate(&s, &program()), err(ConstraintKind::ConstraintSeeds, AccountName::EscrowStateCheck));
}

#[test]
fn resolve_dispute_accounts() {
    let (s, escrow) = state();
    let good = ResolveDispute {
        escrow_state: escrow,
        arbitrator: key(3),
        arbitrator_signed: true,
        buyer: key(1),
        seller: key(2),
        vault_token_account: tokens(key(4), escrow),
        buyer_token_account: tokens(key(4), key(1)),
        seller_token_account: tokens(key(4), key(2)),
    };
    assert_eq!(good.validate(&s, &program()), Ok(()));
    let bad = ResolveDispute { arbitrator: key(1), ..good };
    assert_eq!(bad.validate(&s, &program()), err(ConstraintKind::ConstraintHasOne, AccountName::EscrowState));
    let stranger_buyer = ResolveDispute {
        buyer: key(66),
        buyer_token_account: tokens(key(4), key(66)),
        ..good
    };
    assert_eq!(
        stranger_buyer.validate(&s, &program()),
        err(ConstraintKind::ConstraintHasOne, AccountName::EscrowState)
    );
    let stranger_seller = ResolveDispute {
        seller: key(66),
        seller_token_account: tokens(key(4), key(66)),
        ..good
    };
    assert_eq!(
        stranger_seller.validate(&s, &program()),
        err(ConstraintKind::ConstraintHasOne, AccountName::EscrowState)
    );
    let bad = ResolveDispute { buyer_token_account: tokens(key(5), key(1)), ..good };
    assert_eq!(bad.validate(&s, &program()), err(ConstraintKind::ConstraintRaw, AccountName::BuyerTokenAccount));
    let bad = ResolveDispute { seller_token_account: tokens(key(4), key(1)), ..good };
    assert_eq!(bad.validate(&s, &program()), err(ConstraintKind::ConstraintRaw, AccountName::SellerTokenAccount));
}

#[test]
fn refund_expired_accounts() {
    let (s, escrow) = state();
    let good = RefundExpired {
        escrow_state: escrow,
        buyer: key(1),
        vault_token_account: tokens(key(4), escrow),
        buyer_token_account: tokens(key(4), key(1)),
    };
    assert_eq!(good.validate(&s, &program()), Ok(()));
    let bad = RefundExpired { vault_token_account: tokens(key(4), key(2)), ..good };
    assert_eq!(bad.validate(&s, &program()), err(ConstraintKind::ConstraintRaw, AccountName::VaultTokenAccount));
    let bad = RefundExpired { buyer: key(2), buyer_token_account: tokens(key(4), key(2)), ..good };
    assert_eq!(bad.validate(&s, &program()), err(ConstraintKind::ConstraintSeeds, AccountName::EscrowState));
}

#[test]
fn unsigned_accounts_are_refused_first() {
    let (s, escrow) = state();
    let fund = FundEscrow {
        escrow_state: key(8),
        buyer: key(1),
        buyer_signed: false,
        vault_token_account: tokens(key(4), escrow),
        buyer_token_account: tokens(key(4), key(1)),
        token_mint: key(4),
    };
    assert_eq!(fund.validate(&s, &program()), err(ConstraintKind::AccountNotSigner, AccountName::Buyer));
    let release = ReleaseFunds {
        escrow_state: escrow,
        buyer: key(1),
        seller: key(2),
        authority: key(1),
        authority_signed: false,
        vault_token_account: tokens(key(4), escrow),
        seller_token_account: tokens(key(4), key(2)),
        token_mint: key(4),
    };
    assert_eq!(release.validate(&s, &program()), err(ConstraintKind::AccountNotSigner, AccountName::Authority));
    let dispute =
        CreateDispute { escrow_state: escrow, dispute_creator: key(1), creator_signed: false, escrow_state_check: escrow };
    assert_eq!(dispute.validate(&s, &program()), err(ConstraintKind::AccountNotSigner, AccountName::DisputeCreator));
    let resolve = ResolveDispute {
        escrow_state: escrow,
        arbitrator: key(3),
        arbitrator_signed: false,
        buyer: key(1),
        seller: key(2),
        vault_token_account: tokens(key(4), escrow),
        buyer_token_account: tokens(key(4), key(1)),
        seller_token_account: tokens(key(4), key(2)),
    };
    assert_eq!(resolve.validate(&s, &program()), err(ConstraintKind::AccountNotSigner, AccountName::Arbitrator));
}

#[test]
fn fund_escrow_vault_checks() {
    let (s, escrow) = state();
    let good = FundEscrow {
        escrow_state: escrow,
        buyer: key(1),
        buyer_signed: true,
        vault_token_account: tokens(key(4), escrow),
        buyer_token_account: tokens(key(4), key(1)),
        token_mint: key(4),
    };
    let bad = FundEscrow { vault_token_account: tokens(key(5), escrow), ..good };
    assert_eq!(bad.validate(&s, &program()), err(ConstraintKind::ConstraintTokenMint, AccountName::VaultTokenAccount));
    let bad = FundEscrow { vault_token_account: tokens(key(4), key(1)), ..good };
    assert_eq!(bad.validate(&s, &program()), err(ConstraintKind::ConstraintTokenOwner, AccountName::VaultTokenAccount));
}

#[test]
fn create_escrow_accounts_find_the_canonical_bump() {
    let (expected, bump) = pda(42, &key(1));
    let accounts = escrow_engine::accounts::CreateEscrow {
        escrow_state: expected,
        buyer: key(1),
        buyer_signed: true,
        seller: key(2),
        arbitrator: key(3),
        token_mint: key(4),
    };
    assert_eq!(accounts.validate(42, &program()), Ok(bump));
    let elsewhere = escrow_engine::accounts::CreateEscrow { escrow_state: key(8), ..accounts };
    assert_eq!(elsewhere.validate(42, &program()), err_u8(ConstraintKind::ConstraintSeeds, AccountName::EscrowState));
    let other_deal = accounts.validate(43, &program());
    assert_eq!(other_deal, err_u8(ConstraintKind::ConstraintSeeds, AccountName::EscrowState));
    let unsigned = escrow_engine::accounts::CreateEscrow { buyer_signed: false, ..accounts };
    assert_eq!(unsigned.validate(42, &program()), err_u8(ConstraintKind::AccountNotSigner, AccountName::Buyer));
}

fn err_u8(kind: ConstraintKind, account: AccountName) -> Result<u8, ConstraintViolation> {
    Err(ConstraintViolation { kind, account })
}
