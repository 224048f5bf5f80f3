//! The accounts that each instruction works on, as the plain values that
//! the instruction rules read, and the constraints that tie them to the
//! escrow: its address, its parties, its mint and its vault.
use vstd::prelude::*;
use crate::key::AccountKey;
use crate::address::{
    canonical_bump, escrow_base_seeds_spec, escrow_seeds_spec, find_escrow_address,
    is_escrow_address, program_address,
};
use crate::state::EscrowState;

verus! {

/// The fields of a token account that the constraints read.
#[derive(Clone, Copy, Debug, PartialEq, Eq)]
pub struct TokenAccountData {
    /// The mint of the tokens it holds.
    pub mint: AccountKey,
    /// The wallet or program that owns it.
    pub owner: AccountKey,
}

/// The kind of a failed account check.
#[derive(Clone, Copy, Debug, PartialEq, Eq)]
pub enum ConstraintKind {
    /// An account that must sign the transaction did not.
    AccountNotSigner,
    /// The vault holds tokens of another mint than the escrow's.
    ConstraintTokenMint,
    /// The vault is owned by another account than the escrow.
    ConstraintTokenOwner,
    /// The account is not at the address that its seeds derive.
    ConstraintSeeds,
    /// A key stored in the escrow does not match the account passed for it.
    ConstraintHasOne,
    /// A condition written on the account does not hold.
    ConstraintRaw,
}

/// The account that a failed constraint is declared on.
#[derive(Clone, Copy, Debug, PartialEq, Eq)]
pub enum AccountName {
    Buyer,
    DisputeCreator,
    Arbitrator,
    EscrowState,
    EscrowStateCheck,
    BuyerTokenAccount,
    SellerTokenAccount,
    VaultTokenAccount,
    Authority,
}

/// A failed account constraint: which one, and on which account.
#[derive(Clone, Copy, Debug, PartialEq, Eq)]
pub struct ConstraintViolation {
    pub kind: ConstraintKind,
    pub account: AccountName,
}

/// The accounts of `create_escrow`: the new escrow account and the parties.
/// The buyer signs; the escrow account is created at the address derived
/// from the deal and the buyer with the canonical bump, which is stored in it.
#[derive(Clone, Copy, Debug, PartialEq, Eq)]
pub struct CreateEscrow {
    pub escrow_state: AccountKey,
    pub buyer: AccountKey,
    /// Whether the buyer signed the transaction.
    pub buyer_signed: bool,
    pub seller: AccountKey,
    pub arbitrator: AccountKey,
    pub token_mint: AccountKey,
}

/// The accounts of `fund_escrow`. The buyer signs. The vault is the
/// escrow's associated token account for the mint, created when it is
/// missing; it must hold the escrow's mint and belong to the escrow.
#[derive(Clone, Copy, Debug, PartialEq, Eq)]
pub struct FundEscrow {
    pub escrow_state: AccountKey,
    pub buyer: AccountKey,
    /// Whether the buyer signed the transaction.
    pub buyer_signed: bool,
    pub buyer_token_account: TokenAccountData,
    pub vault_token_account: TokenAccountData,
    pub token_mint: AccountKey,
}

/// The accounts of `release_funds`. The authority signs, and must be the
/// escrow's buyer, seller or arbitrator.
#[derive(Clone, Copy, Debug, PartialEq, Eq)]
pub struct ReleaseFunds {
    pub escrow_state: AccountKey,
    pub buyer: AccountKey,
    pub seller: AccountKey,
    pub authority: AccountKey,
    /// Whether the authority signed the transaction.
    pub authority_signed: bool,
    pub vault_token_account: TokenAccountData,
    pub seller_token_account: TokenAccountData,
    pub token_mint: AccountKey,
}

/// The accounts of `create_dispute`: the escrow, passed twice, and the
/// party that opens the dispute and signs.
#[derive(Clone, Copy, Debug, PartialEq, Eq)]
pub struct CreateDispute {
    pub escrow_state: AccountKey,
    pub dispute_creator: AccountKey,
    /// Whether the dispute's creator signed the transaction.
    pub creator_signed: bool,
    pub escrow_state_check: AccountKey,
}

/// The accounts of `resolve_dispute`. The arbitrator signs.
#[derive(Clone, Copy, Debug, PartialEq, Eq)]
pub struct ResolveDispute {
    pub escrow_state: AccountKey,
    pub arbitrator: AccountKey,
    /// Whether the arbitrator signed the transaction.
    pub arbitrator_signed: bool,
    pub buyer: AccountKey,
    pub seller: AccountKey,
    pub vault_token_account: TokenAccountData,
    pub buyer_token_account: TokenAccountData,
    pub seller_token_account: TokenAccountData,
}

/// The accounts of `refund_expired`.
#[derive(Clone, Copy, Debug, PartialEq, Eq)]
pub struct RefundExpired {
    pub escrow_state: AccountKey,
    pub buyer: AccountKey,
    pub vault_token_account: TokenAccountData,
    pub buyer_token_account: TokenAccountData,
}

/// `key` is the escrow address of deal `deal_id`, buyer `buyer` and bump
/// `bump` under the program `program_id`.
pub open spec fn seeds_match(key: AccountKey, deal_id: u64, buyer: AccountKey, bump: u8, program_id: AccountKey) -> bool {
    program_address(escrow_seeds_spec(deal_id, buyer@, bump), program_id@) == Some(key@)
}

/// `key` is one of the escrow's buyer, seller and arbitrator.
pub open spec fn is_party(key: AccountKey, s: EscrowState) -> bool {
    key == s.buyer || key == s.seller || key == s.arbitrator
}

/// `account` holds tokens of `mint` and belongs to `owner`.
pub open spec fn token_account_ok(account: TokenAccountData, mint: AccountKey, owner: AccountKey) -> bool {
    account.mint == mint && account.owner == owner
}

/// The violation reported for `kind` on `account`.
pub open spec fn violation(kind: ConstraintKind, account: AccountName) -> Option<ConstraintViolation> {
    Some(ConstraintViolation { kind, account })
}

/// The first constraint of a token account that fails: its mint, then its owner.
pub open spec fn token_account_violation(
    a: TokenAccountData,
    mint: AccountKey,
    owner: AccountKey,
    name: AccountName,
) -> Option<ConstraintViolation> {
    if a.mint != mint || a.owner != owner {
        violation(ConstraintKind::ConstraintRaw, name)
    } else {
        None
    }
}

fn check_token_account(
    a: &TokenAccountData,
    mint: &AccountKey,
    owner: &AccountKey,
    name: AccountName,
) -> (r: Result<(), ConstraintViolation>)
    ensures
        match r {
            Ok(_) => token_account_violation(*a, *mint, *owner, name) is None,
            Err(v) => token_account_violation(*a, *mint, *owner, name) == Some(v),
        },
{
    if !a.mint.same_as(mint) || !a.owner.same_as(owner) {
        return Err(ConstraintViolation { kind: ConstraintKind::ConstraintRaw, account: name });
    }
    Ok(())
}

fn check_seeds(
    key: &AccountKey,
    deal_id: u64,
    buyer: &AccountKey,
    bump: u8,
    program_id: &AccountKey,
    name: AccountName,
) -> (r: Result<(), ConstraintViolation>)
    ensures
        match r {
            Ok(_) => seeds_match(*key, deal_id, *buyer, bump, *program_id),
            Err(v) => !seeds_match(*key, deal_id, *buyer, bump, *program_id)
                && Some(v) == violation(ConstraintKind::ConstraintSeeds, name),
        },
{
    if !is_escrow_address(key, deal_id, buyer, bump, program_id) {
        return Err(ConstraintViolation { kind: ConstraintKind::ConstraintSeeds, account: name });
    }
    Ok(())
}

fn check_signed(signed: bool, name: AccountName) -> (r: Result<(), ConstraintViolation>)
    ensures
        match r {
            Ok(_) => signed,
            Err(v) => !signed && Some(v) == violation(ConstraintKind::AccountNotSigner, name),
        },
{
    if !signed {
        return Err(ConstraintViolation { kind: ConstraintKind::AccountNotSigner, account: name });
    }
    Ok(())
}

fn check_has_one(stored: &AccountKey, passed: &AccountKey) -> (r: Result<(), ConstraintViolation>)
    ensures
        match r {
            Ok(_) => *stored == *passed,
            Err(v) => *stored != *passed
                && Some(v) == violation(ConstraintKind::ConstraintHasOne, AccountName::EscrowState),
        },
{
    if !stored.same_as(passed) {
        return Err(
            ConstraintViolation {
                kind: ConstraintKind::ConstraintHasOne,
                account: AccountName::EscrowState,
            },
        );
    }
    Ok(())
}

impl FundEscrow {
    /// The first check that fails: the buyer's signature, the vault's mint
    /// and owner (the escrow), the escrow's address, its buyer and mint,
    /// then the buyer's token account (the escrow's mint, owned by the buyer).
    pub open spec fn violation(self, s: EscrowState, program_id: AccountKey) -> Option<ConstraintViolation> {
        if !self.buyer_signed {
            violation(ConstraintKind::AccountNotSigner, AccountName::Buyer)
        } else if self.vault_token_account.mint != self.token_mint {
            violation(ConstraintKind::ConstraintTokenMint, AccountName::VaultTokenAccount)
        } else if self.vault_token_account.owner != self.escrow_state {
            violation(ConstraintKind::ConstraintTokenOwner, AccountName::VaultTokenAccount)
        } else if !seeds_match(self.escrow_state, s.deal_id, self.buyer, s.bump, program_id) {
            violation(ConstraintKind::ConstraintSeeds, AccountName::EscrowState)
        } else if s.buyer != self.buyer || s.token_mint != self.token_mint {
            violation(ConstraintKind::ConstraintHasOne, AccountName::EscrowState)
        } else {
            token_account_violation(self.buyer_token_account, s.token_mint, self.buyer, AccountName::BuyerTokenAccount)
        }
    }

    /// Checks the accounts of `fund_escrow` against the escrow `state` of
    /// the program `program_id`.
    pub fn validate(&self, state: &EscrowState, program_id: &AccountKey) -> (r: Result<(), ConstraintViolation>)
        ensures
            match r {
                Ok(_) => self.violation(*state, *program_id) is None,
                Err(v) => self.violation(*state, *program_id) == Some(v),
            },
    {
        check_signed(self.buyer_signed, AccountName::Buyer)?;
        if !self.vault_token_account.mint.same_as(&self.token_mint) {
            return Err(
                ConstraintViolation {
                    kind: ConstraintKind::ConstraintTokenMint,
                    account: AccountName::VaultTokenAccount,
                },
            );
        }
        if !self.vault_token_account.owner.same_as(&self.escrow_state) {
            return Err(
                ConstraintViolation {
                    kind: ConstraintKind::ConstraintTokenOwner,
                    account: AccountName::VaultTokenAccount,
                },
            );
        }
        check_seeds(&self.escrow_state, state.deal_id, &self.buyer, state.bump, program_id, AccountName::EscrowState)?;
        check_has_one(&state.buyer, &self.buyer)?;
        check_has_one(&state.token_mint, &self.token_mint)?;
        check_token_account(&self.buyer_token_account, &state.token_mint, &self.buyer, AccountName::BuyerTokenAccount)
    }
}

impl ReleaseFunds {
    /// The first check that fails: the authority's signature, the escrow's
    /// address, its buyer, seller and mint, that the authority is the buyer, the seller or the
    /// arbitrator, the vault (the escrow's mint, owned by the escrow), then
    /// the seller's token account (the escrow's mint, owned by the seller).
    pub open spec fn violation(self, s: EscrowState, program_id: AccountKey) -> Option<ConstraintViolation> {
        if !self.authority_signed {
            violation(ConstraintKind::AccountNotSigner, AccountName::Authority)
        } else if !seeds_match(self.escrow_state, s.deal_id, self.buyer, s.bump, program_id) {
            violation(ConstraintKind::ConstraintSeeds, AccountName::EscrowState)
        } else if s.buyer != self.buyer || s.seller != self.seller || s.token_mint != self.token_mint {
            violation(ConstraintKind::ConstraintHasOne, AccountName::EscrowState)
        } else if !is_party(self.authority, s) {
            violation(ConstraintKind::ConstraintRaw, AccountName::Authority)
        } else if token_account_violation(self.vault_token_account, s.token_mint, self.escrow_state, AccountName::VaultTokenAccount) is Some {
            token_account_violation(self.vault_token_account, s.token_mint, self.escrow_state, AccountName::VaultTokenAccount)
        } else {
            token_account_violation(self.seller_token_account, s.token_mint, self.seller, AccountName::SellerTokenAccount)
        }
    }

    /// Checks the accounts of `release_funds` against the escrow `state` of
    /// the program `program_id`.
    pub fn validate(&self, state: &EscrowState, program_id: &AccountKey) -> (r: Result<(), ConstraintViolation>)
        ensures
            match r {
                Ok(_) => self.violation(*state, *program_id) is None,
                Err(v) => self.violation(*state, *program_id) == Some(v),
            },
    {
        check_signed(self.authority_signed, AccountName::Authority)?;
        check_seeds(&self.escrow_state, state.deal_id, &self.buyer, state.bump, program_id, AccountName::EscrowState)?;
        check_has_one(&state.buyer, &self.buyer)?;
        check_has_one(&state.seller, &self.seller)?;
        check_has_one(&state.token_mint, &self.token_mint)?;
        if !self.authority.same_as(&state.buyer) && !self.authority.same_as(&state.seller)
            && !self.authority.same_as(&state.arbitrator) {
            return Err(
                ConstraintViolation { kind: ConstraintKind::ConstraintRaw, account: AccountName::Authority },
            );
        }
        check_token_account(&self.vault_token_account, &state.token_mint, &self.escrow_state, AccountName::VaultTokenAccount)?;
        check_token_account(&self.seller_token_account, &state.token_mint, &self.seller, AccountName::SellerTokenAccount)
    }
}

impl CreateDispute {
    /// The first check that fails: the creator's signature, the escrow's
    /// address, the second copy's address, then that the creator is the
    /// buyer or the seller.
    pub open spec fn violation(self, s: EscrowState, program_id: AccountKey) -> Option<ConstraintViolation> {
        if !self.creator_signed {
            violation(ConstraintKind::AccountNotSigner, AccountName::DisputeCreator)
        } else if !seeds_match(self.escrow_state, s.deal_id, s.buyer, s.bump, program_id) {
            violation(ConstraintKind::ConstraintSeeds, AccountName::EscrowState)
        } else if !seeds_match(self.escrow_state_check, s.deal_id, s.buyer, s.bump, program_id) {
            violation(ConstraintKind::ConstraintSeeds, AccountName::EscrowStateCheck)
        } else if self.dispute_creator != s.buyer && self.dispute_creator != s.seller {
            violation(ConstraintKind::ConstraintRaw, AccountName::EscrowStateCheck)
        } else {
            None
        }
    }

    /// Checks the accounts of `create_dispute` against the escrow `state`
    /// of the program `program_id`.
    pub fn validate(&self, state: &EscrowState, program_id: &AccountKey) -> (r: Result<(), ConstraintViolation>)
        ensures
            match r {
                Ok(_) => self.violation(*state, *program_id) is None,
                Err(v) => self.violation(*state, *program_id) == Some(v),
            },
    {
        check_signed(self.creator_signed, AccountName::DisputeCreator)?;
        check_seeds(&self.escrow_state, state.deal_id, &state.buyer, state.bump, program_id, AccountName::EscrowState)?;
        check_seeds(&self.escrow_state_check, state.deal_id, &state.buyer, state.bump, program_id, AccountName::EscrowStateCheck)?;
        if !self.dispute_creator.same_as(&state.buyer) && !self.dispute_creator.same_as(&state.seller) {
            return Err(
                ConstraintViolation {
                    kind: ConstraintKind::ConstraintRaw,
                    account: AccountName::EscrowStateCheck,
                },
            );
        }
        Ok(())
    }
}

impl ResolveDispute {
    /// The first check that fails: the arbitrator's signature, the escrow's
    /// address, its arbitrator, buyer and seller, the vault, the buyer's
    /// token account, then the seller's.
    pub open spec fn violation(self, s: EscrowState, program_id: AccountKey) -> Option<ConstraintViolation> {
        if !self.arbitrator_signed {
            violation(ConstraintKind::AccountNotSigner, AccountName::Arbitrator)
        } else if !seeds_match(self.escrow_state, s.deal_id, s.buyer, s.bump, program_id) {
            violation(ConstraintKind::ConstraintSeeds, AccountName::EscrowState)
        } else if s.arbitrator != self.arbitrator || s.buyer != self.buyer || s.seller != self.seller {
            violation(ConstraintKind::ConstraintHasOne, AccountName::EscrowState)
        } else if token_account_violation(self.vault_token_account, s.token_mint, self.escrow_state, AccountName::VaultTokenAccount) is Some {
            token_account_violation(self.vault_token_account, s.token_mint, self.escrow_state, AccountName::VaultTokenAccount)
        } else if token_account_violation(self.buyer_token_account, s.token_mint, self.buyer, AccountName::BuyerTokenAccount) is Some {
            token_account_violation(self.buyer_token_account, s.token_mint, self.buyer, AccountName::BuyerTokenAccount)
        } else {
            token_account_violation(self.seller_token_account, s.token_mint, self.seller, AccountName::SellerTokenAccount)
        }
    }

    /// Checks the accounts of `resolve_dispute` against the escrow `state`
    /// of the program `program_id`.
    pub fn validate(&self, state: &EscrowState, program_id: &AccountKey) -> (r: Result<(), ConstraintViolation>)
        ensures
            match r {
                Ok(_) => self.violation(*state, *program_id) is None,
                Err(v) => self.violation(*state, *program_id) == Some(v),
            },
    {
        check_signed(self.arbitrator_signed, AccountName::Arbitrator)?;
        check_seeds(&self.escrow_state, state.deal_id, &state.buyer, state.bump, program_id, AccountName::EscrowState)?;
        check_has_one(&state.arbitrator, &self.arbitrator)?;
        check_has_one(&state.buyer, &self.buyer)?;
        check_has_one(&state.seller, &self.seller)?;
        check_token_account(&self.vault_token_account, &state.token_mint, &self.escrow_state, AccountName::VaultTokenAccount)?;
        check_token_account(&self.buyer_token_account, &state.token_mint, &self.buyer, AccountName::BuyerTokenAccount)?;
        check_token_account(&self.seller_token_account, &state.token_mint, &self.seller, AccountName::SellerTokenAccount)
    }
}

impl RefundExpired {
    /// The first constraint that fails: the escrow's address, its buyer,
    /// the vault, then the buyer's token account.
    pub open spec fn violation(self, s: EscrowState, program_id: AccountKey) -> Option<ConstraintViolation> {
        if !seeds_match(self.escrow_state, s.deal_id, self.buyer, s.bump, program_id) {
            violation(ConstraintKind::ConstraintSeeds, AccountName::EscrowState)
        } else if s.buyer != self.buyer {
            violation(ConstraintKind::ConstraintHasOne, AccountName::EscrowState)
        } else if token_account_violation(self.vault_token_account, s.token_mint, self.escrow_state, AccountName::VaultTokenAccount) is Some {
            token_account_violation(self.vault_token_account, s.token_mint, self.escrow_state, AccountName::VaultTokenAccount)
        } else {
            token_account_violation(self.buyer_token_account, s.token_mint, self.buyer, AccountName::BuyerTokenAccount)
        }
    }

    /// Checks the accounts of `refund_expired` against the escrow `state`
    /// of the program `program_id`.
    pub fn validate(&self, state: &EscrowState, program_id: &AccountKey) -> (r: Result<(), ConstraintViolation>)
        ensures
            match r {
                Ok(_) => self.violation(*state, *program_id) is None,
                Err(v) => self.violation(*state, *program_id) == Some(v),
            },
    {
        check_seeds(&self.escrow_state, state.deal_id, &self.buyer, state.bump, program_id, AccountName::EscrowState)?;
        check_has_one(&state.buyer, &self.buyer)?;
        check_token_account(&self.vault_token_account, &state.token_mint, &self.escrow_state, AccountName::VaultTokenAccount)?;
        check_token_account(&self.buyer_token_account, &state.token_mint, &self.buyer, AccountName::BuyerTokenAccount)
    }
}

/// Two canonical bumps of the same seeds are the same bump with the same address.
pub proof fn lemma_canonical_unique(seeds: Seq<Seq<u8>>, program_id: Seq<u8>, b1: u8, k1: Seq<u8>, b2: u8, k2: Seq<u8>)
    requires
        canonical_bump(seeds, program_id, b1, k1),
        canonical_bump(seeds, program_id, b2, k2),
    ensures
        b1 == b2,
        k1 == k2,
{
    if b1 < b2 {
        assert(program_address(seeds.push(seq![b2]), program_id) is None);
    } else if b2 < b1 {
        assert(program_address(seeds.push(seq![b1]), program_id) is None);
    }
}

impl CreateEscrow {
    /// `key` is the escrow address of deal `deal_id` opened by this buyer
    /// under the program `program_id`, at some canonical bump.
    pub open spec fn address_found(self, deal_id: u64, program_id: AccountKey) -> bool {
        exists|b: u8| canonical_bump(escrow_base_seeds_spec(deal_id, self.buyer@), program_id@, b, self.escrow_state@)
    }

    /// The first check that fails: the buyer's signature, then that the new
    /// escrow account is at the address of the deal's seeds with the
    /// canonical bump.
    pub open spec fn violation(self, deal_id: u64, program_id: AccountKey) -> Option<ConstraintViolation> {
        if !self.buyer_signed {
            violation(ConstraintKind::AccountNotSigner, AccountName::Buyer)
        } else if !self.address_found(deal_id, program_id) {
            violation(ConstraintKind::ConstraintSeeds, AccountName::EscrowState)
        } else {
            None
        }
    }

    /// Checks the accounts of `create_escrow` for deal `deal_id` of the
    /// program `program_id`, and gives the canonical bump of the escrow.
    pub fn validate(&self, deal_id: u64, program_id: &AccountKey) -> (r: Result<u8, ConstraintViolation>)
        ensures
            match r {
                Ok(b) => {
                    &&& self.violation(deal_id, *program_id) is None
                    &&& canonical_bump(escrow_base_seeds_spec(deal_id, self.buyer@), program_id@, b, self.escrow_state@)
                },
                Err(v) => self.violation(deal_id, *program_id) == Some(v),
            },
    {
        check_signed(self.buyer_signed, AccountName::Buyer)?;
        let ghost seeds = escrow_base_seeds_spec(deal_id, self.buyer@);
        match find_escrow_address(deal_id, &self.buyer, program_id) {
            Some((k, b)) => {
                if k.same_as(&self.escrow_state) {
                    return Ok(b);
                }
                proof {
                    if self.address_found(deal_id, *program_id) {
                        let b2 = choose|b2: u8| canonical_bump(seeds, program_id@, b2, self.escrow_state@);
                        lemma_canonical_unique(seeds, program_id@, b, k@, b2, self.escrow_state@);
                    }
                }
            },
            None => {
                proof {
                    if self.address_found(deal_id, *program_id) {
                        let b2 = choose|b2: u8| canonical_bump(seeds, program_id@, b2, self.escrow_state@);
                        assert(program_address(escrow_seeds_spec(deal_id, self.buyer@, b2), program_id@) is None);
                    }
                }
            },
        }
        Err(ConstraintViolation { kind: ConstraintKind::ConstraintSeeds, account: AccountName::EscrowState })
    }
}

} // verus!
