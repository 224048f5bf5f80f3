//! What holds of the escrow across its instructions: the invariant they
//! keep, the tokens they move in and out of the vault, the statuses they
//! lead to, and the room that the account reserves.
use vstd::prelude::*;
use crate::key::AccountKey;
use crate::accounts::{
    CreateDispute, CreateEscrow, FundEscrow, RefundExpired, ReleaseFunds, ResolveDispute,
    seeds_match,
};
use crate::address::{canonical_bump, escrow_base_seeds_spec};
use crate::state::{
    EscrowError, EscrowState, EscrowStatus, TokenAccountRole, TokenTransfer, TransferAuthority,
    MAX_REASON_LEN, utf8_len,
};
use crate::instructions::{
    create_error, created_state, dispute_error, disputed_state, expired_state, fund_error,
    funded_state, funding_transfer, refund_error, refund_transfer, release_error,
    release_transfer, released_state, resolution_transfers, resolve_error, resolved_state,
};

verus! {

/// An instruction on an existing escrow, with its arguments.
pub enum Instruction {
    Fund { now: i64 },
    Release { amount: u64 },
    Dispute { created_by: AccountKey, reason: String, now: i64 },
    Resolve { to_seller: u64, to_buyer: u64, now: i64 },
    Refund { now: i64 },
}

/// Tokens that a transfer puts into the vault.
pub open spec fn into_vault(t: TokenTransfer) -> int {
    if t.to is Vault { t.amount as int } else { 0 }
}

/// Tokens that a transfer takes out of the vault.
pub open spec fn out_of_vault(t: TokenTransfer) -> int {
    if t.from is Vault { t.amount as int } else { 0 }
}

/// Tokens that a sequence of transfers puts into the vault.
pub open spec fn total_in(ts: Seq<TokenTransfer>) -> int
    decreases ts.len(),
{
    if ts.len() == 0 { 0 } else { total_in(ts.drop_last()) + into_vault(ts.last()) }
}

/// Tokens that a sequence of transfers takes out of the vault.
pub open spec fn total_out(ts: Seq<TokenTransfer>) -> int
    decreases ts.len(),
{
    if ts.len() == 0 { 0 } else { total_out(ts.drop_last()) + out_of_vault(ts.last()) }
}

/// What the buyer has paid into the vault: nothing before funding, the
/// whole amount after.
pub open spec fn paid_in(s: EscrowState) -> int {
    if s.status is Created { 0 } else { s.amount as int }
}

/// What has left the vault so far: what was paid in and is not held.
pub open spec fn paid_out(s: EscrowState) -> int {
    paid_in(s) - s.held()
}

/// The transfers of `refund_expired` as a sequence.
pub open spec fn refund_transfers(s: EscrowState) -> Seq<TokenTransfer> {
    if s.remaining() > 0 { seq![refund_transfer(s.remaining() as u64)] } else { Seq::empty() }
}

/// The escrow and the transfers after a successful instruction, or `None`
/// when the instruction returns an error (and the escrow stays as it was).
pub open spec fn step(s: EscrowState, i: Instruction) -> Option<(EscrowState, Seq<TokenTransfer>)> {
    match i {
        Instruction::Fund { now } => if fund_error(s, now) is None {
            Some((funded_state(s), seq![funding_transfer(s)]))
        } else {
            None
        },
        Instruction::Release { amount } => if release_error(s, amount) is None {
            Some((released_state(s, amount), seq![release_transfer(amount)]))
        } else {
            None
        },
        Instruction::Dispute { created_by, reason, now } => if dispute_error(s, reason@) is None {
            Some((disputed_state(s, created_by, reason, now), Seq::empty()))
        } else {
            None
        },
        Instruction::Resolve { to_seller, to_buyer, now } => if resolve_error(s, to_seller, to_buyer) is None {
            Some((resolved_state(s, now), resolution_transfers(to_seller, to_buyer)))
        } else {
            None
        },
        Instruction::Refund { now } => if refund_error(s, now) is None {
            Some((expired_state(s), refund_transfers(s)))
        } else {
            None
        },
    }
}

/// The escrow and all transfers after a sequence of instructions that all
/// succeed, or `None` when one of them fails.
pub open spec fn run(s: EscrowState, is: Seq<Instruction>) -> Option<(EscrowState, Seq<TokenTransfer>)>
    decreases is.len(),
{
    if is.len() == 0 {
        Some((s, Seq::empty()))
    } else {
        match step(s, is[0]) {
            None => None,
            Some((s1, ts1)) => match run(s1, is.drop_first()) {
                None => None,
                Some((s2, ts2)) => Some((s2, ts1 + ts2)),
            },
        }
    }
}

/// The moves between statuses that the escrow allows.
pub open spec fn allowed_move(from: EscrowStatus, to: EscrowStatus) -> bool {
    ||| from is Created && to is Funded
    ||| from.is_active() && (to is PartiallyReleased || to is Released)
    ||| from.is_active() && to is Disputed
    ||| from is Disputed && to is Resolved
    ||| from.is_active() && to is Expired
}

/// Bytes that the escrow's fields take when written one after the other:
/// fixed-size numbers and keys, one byte per enum tag and option tag, and
/// a four-byte length before the reason's UTF-8 bytes.
pub open spec fn stored_size(s: EscrowState) -> int {
    8 + 32 + 32 + 32 + 32 + 8 + 8 + 1 + 8
        + (if s.expires_at is Some { 9int } else { 1int })
        + match s.dispute_data {
            Some(d) => 1 + 8 + 32 + 4 + utf8_len(d.reason@)
                + (if d.resolved_at is Some { 9int } else { 1int }),
            None => 1int,
        }
        + 1
}

proof fn lemma_totals_append(a: Seq<TokenTransfer>, b: Seq<TokenTransfer>)
    ensures
        total_in(a + b) == total_in(a) + total_in(b),
        total_out(a + b) == total_out(a) + total_out(b),
    decreases b.len(),
{
    if b.len() == 0 {
        assert(a + b =~= a);
    } else {
        lemma_totals_append(a, b.drop_last());
        assert((a + b).drop_last() =~= a + b.drop_last());
    }
}

proof fn lemma_totals_small(ts: Seq<TokenTransfer>)
    requires
        ts.len() <= 2,
    ensures
        ts.len() == 0 ==> total_in(ts) == 0 && total_out(ts) == 0,
        ts.len() == 1 ==> total_in(ts) == into_vault(ts[0]) && total_out(ts) == out_of_vault(ts[0]),
        ts.len() == 2 ==> total_in(ts) == into_vault(ts[0]) + into_vault(ts[1])
            && total_out(ts) == out_of_vault(ts[0]) + out_of_vault(ts[1]),
{
    if ts.len() == 1 {
        assert(ts.drop_last().len() == 0);
        assert(total_in(ts.drop_last()) == 0 && total_out(ts.drop_last()) == 0);
        assert(ts.last() == ts[0]);
    } else if ts.len() == 2 {
        let t1 = ts.drop_last();
        assert(t1.len() == 1 && t1[0] == ts[0] && t1.last() == ts[0]);
        assert(t1.drop_last().len() == 0);
        assert(total_in(t1.drop_last()) == 0 && total_out(t1.drop_last()) == 0);
        assert(total_in(t1) == into_vault(ts[0]));
        assert(total_out(t1) == out_of_vault(ts[0]));
    }
}

/// Creating an escrow gives a well-formed escrow that has received nothing.
pub proof fn law_create_well_formed(
    accounts: CreateEscrow,
    deal_id: u64,
    amount: u64,
    expires_at: Option<i64>,
    now: i64,
    bump: u8,
)
    requires
        create_error(amount, expires_at, now) is None,
    ensures
        created_state(accounts, deal_id, amount, expires_at, now, bump).well_formed(),
        created_state(accounts, deal_id, amount, expires_at, now, bump).status is Created,
        paid_in(created_state(accounts, deal_id, amount, expires_at, now, bump)) == 0,
        paid_out(created_state(accounts, deal_id, amount, expires_at, now, bump)) == 0,
{
}

/// Every successful instruction keeps the escrow well formed, keeps the
/// deal (parties, mint, amount, times, bump) as it was, never lowers what
/// was released, moves its status along the allowed moves, and moves
/// exactly as many tokens into and out of the vault as the escrow's paid-in
/// and paid-out amounts change.
pub proof fn law_step(s: EscrowState, i: Instruction)
    requires
        s.well_formed(),
        step(s, i) is Some,
    ensures
        ({
            let (s2, ts) = step(s, i)->0;
            &&& s2.well_formed()
            &&& s2.same_deal(s)
            &&& s2.amount_released >= s.amount_released
            &&& allowed_move(s.status, s2.status)
            &&& total_in(ts) == paid_in(s2) - paid_in(s)
            &&& total_out(ts) == paid_out(s2) - paid_out(s)
        }),
{
    let (s2, ts) = step(s, i)->0;
    lemma_totals_small(ts);
}

/// Over any sequence of successful instructions the escrow stays well
/// formed and keeps its deal, and the tokens moved into and out of the
/// vault add up to the change of its paid-in and paid-out amounts.
pub proof fn law_run(s: EscrowState, is: Seq<Instruction>)
    requires
        s.well_formed(),
        run(s, is) is Some,
    ensures
        ({
            let (s2, ts) = run(s, is)->0;
            &&& s2.well_formed()
            &&& s2.same_deal(s)
            &&& total_in(ts) == paid_in(s2) - paid_in(s)
            &&& total_out(ts) == paid_out(s2) - paid_out(s)
        }),
    decreases is.len(),
{
    if is.len() == 0 {
        assert(total_in(Seq::<TokenTransfer>::empty()) == 0);
        assert(total_out(Seq::<TokenTransfer>::empty()) == 0);
    } else {
        law_step(s, is[0]);
        let (s1, ts1) = step(s, is[0])->0;
        law_run(s1, is.drop_first());
        let (s2, ts2) = run(s1, is.drop_first())->0;
        lemma_totals_append(ts1, ts2);
    }
}

/// Whatever path a freshly created escrow takes to a final status
/// (released, resolved or expired), exactly its amount goes into the vault
/// and exactly its amount comes out again.
pub proof fn law_all_funds_paid_out(
    accounts: CreateEscrow,
    deal_id: u64,
    amount: u64,
    expires_at: Option<i64>,
    now: i64,
    bump: u8,
    is: Seq<Instruction>,
)
    requires
        create_error(amount, expires_at, now) is None,
        run(created_state(accounts, deal_id, amount, expires_at, now, bump), is) is Some,
        (run(created_state(accounts, deal_id, amount, expires_at, now, bump), is)->0).0.status.is_terminal(),
    ensures
        total_in((run(created_state(accounts, deal_id, amount, expires_at, now, bump), is)->0).1) == amount,
        total_out((run(created_state(accounts, deal_id, amount, expires_at, now, bump), is)->0).1) == amount,
{
    let s0 = created_state(accounts, deal_id, amount, expires_at, now, bump);
    law_run(s0, is);
}

/// Released, resolved and expired escrows refuse every instruction.
pub proof fn law_terminal_is_final(s: EscrowState, i: Instruction)
    requires
        s.status.is_terminal(),
    ensures
        step(s, i) is None,
{
}

/// A well-formed escrow never reports an arithmetic overflow on release or
/// refund, and on resolution only when the two shares overflow together.
pub proof fn law_no_overflow(s: EscrowState, amount: u64, now: i64, to_seller: u64, to_buyer: u64)
    requires
        s.well_formed(),
    ensures
        release_error(s, amount) != Some(EscrowError::ArithmeticOverflow),
        refund_error(s, now) != Some(EscrowError::ArithmeticOverflow),
        resolve_error(s, to_seller, to_buyer) == Some(EscrowError::ArithmeticOverflow)
            ==> to_seller + to_buyer > u64::MAX,
{
}

/// Releasing `a` and then `b` leaves the escrow as releasing `a + b` at once.
pub proof fn law_releases_add_up(s: EscrowState, a: u64, b: u64)
    requires
        release_error(s, a) is None,
        release_error(released_state(s, a), b) is None,
    ensures
        a + b <= u64::MAX,
        release_error(s, (a + b) as u64) is None,
        released_state(released_state(s, a), b) == released_state(s, (a + b) as u64),
{
}

/// An escrow can be funded only before its expiry and refunded only from
/// its expiry on.
pub proof fn law_expiry_divides(s: EscrowState, now: i64)
    ensures
        fund_error(s, now) is None && s.expires_at is Some ==> now < s.expires_at->0,
        refund_error(s, now) is None ==> s.expires_at is Some && now >= s.expires_at->0,
{
}

/// A resolution pays out exactly what the disputed escrow still held.
pub proof fn law_resolution_pays_remaining(s: EscrowState, to_seller: u64, to_buyer: u64)
    requires
        resolve_error(s, to_seller, to_buyer) is None,
    ensures
        total_out(resolution_transfers(to_seller, to_buyer)) == s.remaining(),
        total_in(resolution_transfers(to_seller, to_buyer)) == 0,
{
    lemma_totals_small(resolution_transfers(to_seller, to_buyer));
}

/// The space reserved for an escrow account holds every well-formed escrow.
pub proof fn law_state_fits(s: EscrowState)
    requires
        s.well_formed(),
    ensures
        stored_size(s) <= EscrowState::LEN,
{
}

/// An escrow created at the address and canonical bump of its deal passes
/// every later check of its address with the bump it stores.
pub proof fn law_created_escrow_address(
    accounts: CreateEscrow,
    program_id: AccountKey,
    deal_id: u64,
    bump: u8,
)
    requires
        canonical_bump(escrow_base_seeds_spec(deal_id, accounts.buyer@), program_id@, bump, accounts.escrow_state@),
    ensures
        seeds_match(accounts.escrow_state, deal_id, accounts.buyer, bump, program_id),
        accounts.buyer_signed ==> accounts.violation(deal_id, program_id) is None,
{
}

/// Accounts that pass the checks of `fund_escrow` are signed by the
/// escrow's buyer, pay from a token account of that buyer in the escrow's
/// mint, into a vault of that mint owned by the escrow of that buyer.
pub proof fn law_funding_from_buyer(a: FundEscrow, s: EscrowState, program_id: AccountKey)
    requires
        a.violation(s, program_id) is None,
    ensures
        a.buyer_signed,
        a.vault_token_account.mint == s.token_mint,
        a.vault_token_account.owner == a.escrow_state,
        a.buyer == s.buyer,
        a.buyer_token_account.owner == s.buyer,
        a.buyer_token_account.mint == s.token_mint,
        seeds_match(a.escrow_state, s.deal_id, s.buyer, s.bump, program_id),
{
}

/// Accounts that pass the checks of `release_funds` are signed and authorised by the
/// escrow's buyer, seller or arbitrator, and pay from the escrow's own vault
/// to a token account of the escrow's seller in its mint.
pub proof fn law_release_to_seller(a: ReleaseFunds, s: EscrowState, program_id: AccountKey)
    requires
        a.violation(s, program_id) is None,
    ensures
        a.authority_signed,
        a.authority == s.buyer || a.authority == s.seller || a.authority == s.arbitrator,
        seeds_match(a.escrow_state, s.deal_id, s.buyer, s.bump, program_id),
        a.vault_token_account.owner == a.escrow_state,
        a.vault_token_account.mint == s.token_mint,
        a.seller_token_account.owner == s.seller,
        a.seller_token_account.mint == s.token_mint,
{
}

/// Only the escrow's buyer or seller, signing, can open a dispute on it, and both
/// escrow accounts passed are the same escrow.
pub proof fn law_dispute_by_party(a: CreateDispute, s: EscrowState, program_id: AccountKey)
    requires
        a.violation(s, program_id) is None,
    ensures
        a.creator_signed,
        a.dispute_creator == s.buyer || a.dispute_creator == s.seller,
        seeds_match(a.escrow_state, s.deal_id, s.buyer, s.bump, program_id),
        seeds_match(a.escrow_state_check, s.deal_id, s.buyer, s.bump, program_id),
        a.escrow_state_check@ == a.escrow_state@,
{
}

/// Only the escrow's arbitrator, signing, can settle its dispute, only out of the
/// escrow's own vault, and only into token accounts of the escrow's own
/// buyer and seller in its mint.
pub proof fn law_resolution_by_arbitrator(a: ResolveDispute, s: EscrowState, program_id: AccountKey)
    requires
        a.violation(s, program_id) is None,
    ensures
        a.arbitrator_signed,
        a.arbitrator == s.arbitrator,
        seeds_match(a.escrow_state, s.deal_id, s.buyer, s.bump, program_id),
        a.vault_token_account.owner == a.escrow_state,
        a.vault_token_account.mint == s.token_mint,
        a.buyer_token_account.owner == s.buyer,
        a.buyer_token_account.mint == s.token_mint,
        a.seller_token_account.owner == s.seller,
        a.seller_token_account.mint == s.token_mint,
{
}

/// Accounts that pass the checks of `refund_expired` pay from the escrow's
/// own vault back to a token account of the escrow's buyer in its mint.
pub proof fn law_refund_to_buyer(a: RefundExpired, s: EscrowState, program_id: AccountKey)
    requires
        a.violation(s, program_id) is None,
    ensures
        seeds_match(a.escrow_state, s.deal_id, s.buyer, s.bump, program_id),
        a.vault_token_account.owner == a.escrow_state,
        a.buyer_token_account.owner == s.buyer,
        a.buyer_token_account.mint == s.token_mint,
{
}

/// Tokens that a sequence of transfers pays into the account of `role`.
pub open spec fn paid_to(ts: Seq<TokenTransfer>, role: TokenAccountRole) -> int
    decreases ts.len(),
{
    if ts.len() == 0 {
        0
    } else {
        paid_to(ts.drop_last(), role) + if ts.last().to == role { ts.last().amount as int } else { 0 }
    }
}

/// Creating an escrow succeeds exactly when the amount is not zero and any
/// expiry lies after the current time; the escrow then holds the deal as
/// given, with nothing released, no dispute, and the creation time `now`.
pub proof fn law_create_succeeds_when(
    accounts: CreateEscrow,
    deal_id: u64,
    amount: u64,
    expires_at: Option<i64>,
    now: i64,
    bump: u8,
)
    ensures
        create_error(amount, expires_at, now) is None <==> (amount > 0 && (expires_at is None
            || expires_at->0 > now)),
        create_error(amount, expires_at, now) == Some(EscrowError::InvalidExpirationTime)
            <==> (expires_at is Some && expires_at->0 <= now),
        ({
            let s = created_state(accounts, deal_id, amount, expires_at, now, bump);
            &&& s.deal_id == deal_id && s.amount == amount && s.amount_released == 0
            &&& s.buyer == accounts.buyer && s.seller == accounts.seller
            &&& s.arbitrator == accounts.arbitrator && s.token_mint == accounts.token_mint
            &&& s.status is Created && s.created_at == now && s.expires_at == expires_at
            &&& s.dispute_data is None && s.bump == bump
        }),
{
}

/// Funding succeeds exactly on a created escrow before its expiry (if
/// any), and pays the whole amount from the buyer's tokens into the vault
/// on the buyer's authority.
pub proof fn law_fund_succeeds_when(s: EscrowState, now: i64)
    ensures
        fund_error(s, now) is None <==> (s.status is Created && (s.expires_at is None
            || now < s.expires_at->0)),
        funding_transfer(s).from is BuyerTokens,
        funding_transfer(s).to is Vault,
        funding_transfer(s).authority is Buyer,
        funding_transfer(s).amount == s.amount,
        funded_state(s).status is Funded,
        funded_state(s).amount_released == s.amount_released,
{
}

/// Releasing succeeds exactly on a funded or partly released escrow, for
/// a positive amount no larger than what is left, whatever the size of
/// the amounts; it pays that amount from the vault to the seller, adds it
/// to what was released, and marks the escrow released once all is paid.
pub proof fn law_release_succeeds_when(s: EscrowState, amount: u64)
    ensures
        release_error(s, amount) is None <==> ((s.status is Funded || s.status is PartiallyReleased)
            && 0 < amount && s.amount_released <= s.amount && amount <= s.amount - s.amount_released),
        release_error(s, amount) is None ==> {
            let s2 = released_state(s, amount);
            &&& s2.amount_released == s.amount_released + amount
            &&& (s2.status is Released <==> s.amount_released + amount == s.amount)
            &&& (s2.status is PartiallyReleased <==> s.amount_released + amount < s.amount)
            &&& s2.same_deal(s)
            &&& s2.dispute_data == s.dispute_data
        },
        release_transfer(amount).from is Vault,
        release_transfer(amount).to is SellerTokens,
        release_transfer(amount).authority is Escrow,
        release_transfer(amount).amount == amount,
{
}

/// Disputing succeeds exactly on a funded or partly released escrow with
/// a reason of at most 280 bytes, whether or not the escrow has an
/// expiry; the dispute then records its author, reason and time.
pub proof fn law_dispute_succeeds_when(s: EscrowState, created_by: AccountKey, reason: String, now: i64)
    ensures
        dispute_error(s, reason@) is None <==> ((s.status is Funded || s.status is PartiallyReleased)
            && utf8_len(reason@) <= MAX_REASON_LEN),
        ({
            let s2 = disputed_state(s, created_by, reason, now);
            &&& s2.status is Disputed
            &&& s2.dispute_data == Some(
                crate::state::DisputeData { created_at: now, created_by, reason, resolved_at: None },
            )
            &&& s2.amount_released == s.amount_released
            &&& s2.same_deal(s)
        }),
{
}

/// Resolving succeeds exactly on a disputed escrow whose two shares add
/// up to what it still holds. The seller's share, and only it, goes to
/// the seller's tokens, the buyer's share, and only it, to the buyer's,
/// both out of the vault on the escrow's authority, with no empty transfer.
pub proof fn law_resolve_pays_each_party(s: EscrowState, to_seller: u64, to_buyer: u64, now: i64)
    ensures
        resolve_error(s, to_seller, to_buyer) is None <==> (s.status is Disputed
            && s.amount_released <= s.amount && to_seller + to_buyer == s.amount - s.amount_released),
        paid_to(resolution_transfers(to_seller, to_buyer), TokenAccountRole::SellerTokens) == to_seller,
        paid_to(resolution_transfers(to_seller, to_buyer), TokenAccountRole::BuyerTokens) == to_buyer,
        paid_to(resolution_transfers(to_seller, to_buyer), TokenAccountRole::Vault) == 0,
        forall|i: int| 0 <= i < resolution_transfers(to_seller, to_buyer).len() ==> {
            let t = #[trigger] resolution_transfers(to_seller, to_buyer)[i];
            &&& t.from is Vault
            &&& t.authority is Escrow
            &&& t.amount > 0
        },
        resolved_state(s, now).status is Resolved,
        resolved_state(s, now).amount_released == s.amount,
        resolved_state(s, now).same_deal(s),
{
    let ts = resolution_transfers(to_seller, to_buyer);
    let st = release_transfer(to_seller);
    let bt = refund_transfer(to_buyer);
    lemma_paid_to_small(seq![st, bt]);
    lemma_paid_to_small(seq![st]);
    lemma_paid_to_small(seq![bt]);
    lemma_paid_to_small(Seq::<TokenTransfer>::empty());
    if to_seller > 0 && to_buyer > 0 {
        assert(ts =~= seq![st, bt]);
    } else if to_seller > 0 {
        assert(ts =~= seq![st]);
    } else if to_buyer > 0 {
        assert(ts =~= seq![bt]);
    } else {
        assert(ts =~= Seq::<TokenTransfer>::empty());
    }
}

proof fn lemma_paid_to_small(ts: Seq<TokenTransfer>)
    requires
        ts.len() <= 2,
    ensures
        forall|role: TokenAccountRole| #[trigger] paid_to(ts, role) == (if ts.len() >= 1 && ts[0].to == role {
            ts[0].amount as int
        } else {
            0
        }) + (if ts.len() == 2 && ts[1].to == role { ts[1].amount as int } else { 0 }),
{
    assert forall|role: TokenAccountRole| #[trigger] paid_to(ts, role) == (if ts.len() >= 1 && ts[0].to == role {
        ts[0].amount as int
    } else {
        0
    }) + (if ts.len() == 2 && ts[1].to == role { ts[1].amount as int } else { 0 }) by {
        if ts.len() == 1 {
            assert(ts.drop_last().len() == 0);
            assert(paid_to(ts.drop_last(), role) == 0);
            assert(ts.last() == ts[0]);
        } else if ts.len() == 2 {
            let t1 = ts.drop_last();
            assert(t1.len() == 1 && t1.last() == ts[0]);
            assert(t1.drop_last().len() == 0);
            assert(paid_to(t1.drop_last(), role) == 0);
            assert(paid_to(t1, role) == (if ts[0].to == role { ts[0].amount as int } else { 0 }));
            assert(ts.last() == ts[1]);
        }
    }
}

/// Refunding succeeds exactly on a funded or partly released escrow whose
/// expiry has come, whatever the size of the amounts, and pays everything
/// still held from the vault back to the buyer (nothing when nothing is left).
pub proof fn law_refund_succeeds_when(s: EscrowState, now: i64)
    ensures
        refund_error(s, now) is None <==> (s.expires_at is Some && now >= s.expires_at->0
            && (s.status is Funded || s.status is PartiallyReleased) && s.amount_released <= s.amount),
        refund_error(s, now) is None ==> {
            &&& paid_to(refund_transfers(s), TokenAccountRole::BuyerTokens) == s.amount - s.amount_released
            &&& paid_to(refund_transfers(s), TokenAccountRole::SellerTokens) == 0
            &&& total_out(refund_transfers(s)) == s.amount - s.amount_released
            &&& expired_state(s).status is Expired
            &&& expired_state(s).amount_released == s.amount_released
            &&& expired_state(s).same_deal(s)
        },
{
    let ts = refund_transfers(s);
    lemma_paid_to_small(ts);
    lemma_totals_small(ts);
    assert(paid_to(ts, TokenAccountRole::BuyerTokens) == paid_to(ts, TokenAccountRole::BuyerTokens));
    assert(paid_to(ts, TokenAccountRole::SellerTokens) == paid_to(ts, TokenAccountRole::SellerTokens));
}

} // verus!
