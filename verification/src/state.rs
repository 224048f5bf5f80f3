//! The escrow account, its status, its dispute record, its errors and the
//! events that the instructions report.
use vstd::prelude::*;
use vstd::utf8::encode_utf8;
use crate::key::AccountKey;

verus! {

/// Longest dispute reason that an escrow accepts, in bytes.
pub const MAX_REASON_LEN: usize = 280;

/// Where an escrow stands in its life.
#[derive(Clone, Copy, Debug, PartialEq, Eq)]
pub enum EscrowStatus {
    Created,
    Funded,
    PartiallyReleased,
    Released,
    Disputed,
    Resolved,
    Expired,
}

/// The record of a dispute raised on an escrow.
#[derive(Clone, Debug, PartialEq, Eq)]
pub struct DisputeData {
    pub created_at: i64,
    pub created_by: AccountKey,
    pub reason: String,
    pub resolved_at: Option<i64>,
}

impl DisputeData {
    /// Bytes reserved for a dispute record: time, author, length-prefixed
    /// reason of at most 280 bytes, optional resolution time.
    pub const LEN: usize = 8 + 32 + 4 + 280 + 9;
}

/// The data that an escrow account holds.
#[derive(Clone, Debug, PartialEq, Eq)]
pub struct EscrowState {
    pub deal_id: u64,
    pub buyer: AccountKey,
    pub seller: AccountKey,
    pub arbitrator: AccountKey,
    pub token_mint: AccountKey,
    pub amount: u64,
    pub amount_released: u64,
    pub status: EscrowStatus,
    pub created_at: i64,
    pub expires_at: Option<i64>,
    pub dispute_data: Option<DisputeData>,
    pub bump: u8,
}

impl EscrowState {
    /// Bytes reserved for an escrow account after its 8-byte discriminator.
    pub const LEN: usize = 8 + 32 + 32 + 32 + 32 + 8 + 8 + 2 + 8 + 9 + (1 + DisputeData::LEN) + 1;
}

/// The errors that the escrow instructions return.
#[derive(Clone, Copy, Debug, PartialEq, Eq)]
pub enum EscrowError {
    InvalidEscrowStatus,
    InvalidAmount,
    InsufficientFunds,
    EscrowExpired,
    EscrowNotExpired,
    InvalidExpirationTime,
    NoExpirationSet,
    DisputeReasonTooLong,
    InvalidResolutionAmounts,
    ArithmeticOverflow,
}

/// Reported when an escrow is created.
#[derive(Clone, Copy, Debug, PartialEq, Eq)]
pub struct EscrowCreated {
    pub escrow: AccountKey,
    pub deal_id: u64,
    pub buyer: AccountKey,
    pub seller: AccountKey,
    pub amount: u64,
}

/// Reported when the buyer has paid the amount into the vault.
#[derive(Clone, Copy, Debug, PartialEq, Eq)]
pub struct EscrowFunded {
    pub escrow: AccountKey,
    pub amount: u64,
}

/// Reported when tokens go from the vault to the seller.
#[derive(Clone, Copy, Debug, PartialEq, Eq)]
pub struct FundsReleased {
    pub escrow: AccountKey,
    pub amount: u64,
    pub total_released: u64,
}

/// Reported when a party opens a dispute.
#[derive(Clone, Copy, Debug, PartialEq, Eq)]
pub struct DisputeCreated {
    pub escrow: AccountKey,
    pub created_by: AccountKey,
}

/// Reported when the arbitrator settles a dispute.
#[derive(Clone, Copy, Debug, PartialEq, Eq)]
pub struct DisputeResolved {
    pub escrow: AccountKey,
    pub release_to_seller: u64,
    pub refund_to_buyer: u64,
}

/// Reported when an expired escrow has paid back what it still held.
#[derive(Clone, Copy, Debug, PartialEq, Eq)]
pub struct EscrowExpired {
    pub escrow: AccountKey,
    pub refunded_amount: u64,
}

/// A token account that an instruction moves tokens between.
#[derive(Clone, Copy, Debug, PartialEq, Eq)]
pub enum TokenAccountRole {
    /// The buyer's token account.
    BuyerTokens,
    /// The seller's token account.
    SellerTokens,
    /// The escrow's vault, owned by the escrow account.
    Vault,
}

/// Who authorises a token transfer.
#[derive(Clone, Copy, Debug, PartialEq, Eq)]
pub enum TransferAuthority {
    /// The buyer, who signs the transaction.
    Buyer,
    /// The escrow account, which signs with its address seeds.
    Escrow,
}

/// A token transfer that an instruction asks to be carried out.
#[derive(Clone, Copy, Debug, PartialEq, Eq)]
pub struct TokenTransfer {
    pub from: TokenAccountRole,
    pub to: TokenAccountRole,
    pub authority: TransferAuthority,
    pub amount: u64,
}

impl EscrowStatus {
    /// The statuses from which tokens may still be released, disputed or refunded.
    pub open spec fn is_active(self) -> bool {
        self is Funded || self is PartiallyReleased
    }

    /// The statuses that no instruction leaves.
    pub open spec fn is_terminal(self) -> bool {
        self is Released || self is Resolved || self is Expired
    }
}

/// Length in bytes of a string's UTF-8 encoding.
pub open spec fn utf8_len(s: Seq<char>) -> nat {
    encode_utf8(s).len()
}

impl EscrowState {
    /// What the escrow still owes: the amount minus what was released.
    pub open spec fn remaining(self) -> int {
        self.amount - self.amount_released
    }

    /// Tokens that the vault holds for this escrow.
    pub open spec fn held(self) -> int {
        if self.status is Funded || self.status is PartiallyReleased || self.status is Disputed {
            self.remaining()
        } else {
            0
        }
    }

    /// The invariant that every escrow created and changed by the
    /// instructions keeps.
    pub open spec fn well_formed(self) -> bool {
        &&& self.amount > 0
        &&& self.amount_released <= self.amount
        &&& self.status is Created ==> self.amount_released == 0
        &&& self.status is Released ==> self.amount_released == self.amount
        &&& self.status is PartiallyReleased ==> self.amount_released < self.amount
        &&& self.status is Resolved ==> self.amount_released == self.amount
        &&& (self.status is Disputed || self.status is Resolved) <==> self.dispute_data is Some
        &&& self.dispute_data matches Some(d) ==> utf8_len(d.reason@) <= MAX_REASON_LEN
    }

    /// The fields that are fixed when the escrow is created.
    pub open spec fn same_deal(self, other: EscrowState) -> bool {
        &&& self.deal_id == other.deal_id
        &&& self.buyer == other.buyer
        &&& self.seller == other.seller
        &&& self.arbitrator == other.arbitrator
        &&& self.token_mint == other.token_mint
        &&& self.amount == other.amount
        &&& self.created_at == other.created_at
        &&& self.expires_at == other.expires_at
        &&& self.bump == other.bump
    }
}

impl EscrowError {
    /// The number under which the program reports the error.
    pub fn code(&self) -> (c: u32)
        ensures
            c == 6000 + error_index(*self),
    {
        match self {
            EscrowError::InvalidEscrowStatus => 6000,
            EscrowError::InvalidAmount => 6001,
            EscrowError::InsufficientFunds => 6002,
            EscrowError::EscrowExpired => 6003,
            EscrowError::EscrowNotExpired => 6004,
            EscrowError::InvalidExpirationTime => 6005,
            EscrowError::NoExpirationSet => 6006,
            EscrowError::DisputeReasonTooLong => 6007,
            EscrowError::InvalidResolutionAmounts => 6008,
            EscrowError::ArithmeticOverflow => 6009,
        }
    }
}

/// Position of an error in the declaration of `EscrowError`.
pub open spec fn error_index(e: EscrowError) -> u32 {
    match e {
        EscrowError::InvalidEscrowStatus => 0,
        EscrowError::InvalidAmount => 1,
        EscrowError::InsufficientFunds => 2,
        EscrowError::EscrowExpired => 3,
        EscrowError::EscrowNotExpired => 4,
        EscrowError::InvalidExpirationTime => 5,
        EscrowError::NoExpirationSet => 6,
        EscrowError::DisputeReasonTooLong => 7,
        EscrowError::InvalidResolutionAmounts => 8,
        EscrowError::ArithmeticOverflow => 9,
    }
}

} // verus!
