//! The escrow account's address: the seeds it is derived from and the
//! check that an account really is the escrow of a deal.
use vstd::prelude::*;
use anchor_lang::prelude::Pubkey;
use anchor_lang::solana_program::pubkey::PubkeyError;
use crate::key::AccountKey;

verus! {

/// Most seeds that a program address may be derived from.
pub const MAX_SEEDS: usize = 16;

/// Longest single seed, in bytes.
pub const MAX_SEED_LEN: usize = 32;

/// Why no program address could be derived.
#[derive(Clone, Copy, Debug, PartialEq, Eq)]
pub enum AddressError {
    /// Too many seeds, or a seed longer than 32 bytes.
    MaxSeedLengthExceeded,
    /// The seeds give a point on the curve, which is no program address.
    InvalidSeeds,
    /// The owner may not be used.
    IllegalOwner,
}

/// The `n` little-endian bytes of `x`, least significant first.
pub open spec fn le_bytes(x: nat, n: nat) -> Seq<u8>
    decreases n,
{
    if n == 0 {
        Seq::empty()
    } else {
        seq![(x % 256) as u8] + le_bytes(x / 256, (n - 1) as nat)
    }
}

/// The bytes of the word `escrow`, the first seed of every escrow address.
pub open spec fn escrow_tag() -> Seq<u8> {
    seq![101u8, 115u8, 99u8, 114u8, 111u8, 119u8]
}

/// The seeds of the escrow of deal `deal_id` opened by `buyer`, before the bump.
pub open spec fn escrow_base_seeds_spec(deal_id: u64, buyer: Seq<u8>) -> Seq<Seq<u8>> {
    seq![escrow_tag(), le_bytes(deal_id as nat, 8), buyer]
}

/// The seeds of the escrow of deal `deal_id` opened by `buyer`, with the
/// bump that makes the address fall off the curve.
pub open spec fn escrow_seeds_spec(deal_id: u64, buyer: Seq<u8>, bump: u8) -> Seq<Seq<u8>> {
    escrow_base_seeds_spec(deal_id, buyer).push(seq![bump])
}

/// `bump` is the canonical bump of `seeds` under `program_id`, and `key`
/// the address it gives: the highest bump from 255 down to 1 for which the
/// seeds followed by the bump give an address.
pub open spec fn canonical_bump(seeds: Seq<Seq<u8>>, program_id: Seq<u8>, bump: u8, key: Seq<u8>) -> bool {
    &&& bump >= 1
    &&& program_address(seeds.push(seq![bump]), program_id) == Some(key)
    &&& forall|c: u8| bump < c ==> #[trigger] program_address(seeds.push(seq![c]), program_id) is None
}

/// Seeds that a program address may be derived from.
pub open spec fn seeds_within_limits(seeds: Seq<Seq<u8>>) -> bool {
    &&& seeds.len() <= MAX_SEEDS
    &&& forall|i: int| 0 <= i < seeds.len() ==> #[trigger] seeds[i].len() <= MAX_SEED_LEN
}

/// The address that the program `program_id` owns for `seeds` (a hash of
/// the seeds, the program and a fixed marker), or `None` where that hash
/// lies on the curve. Meaningful for seeds within the limits.
pub uninterp spec fn program_address(seeds: Seq<Seq<u8>>, program_id: Seq<u8>) -> Option<Seq<u8>>;

/// `Pubkey::create_program_address` of solana-program, on seeds within the
/// limits. Claimed: the result is the address named by `program_address`,
/// or `InvalidSeeds` where that names none. The hash itself is not stated.
/// On chain the same computation is a system call of the runtime.
#[verifier::external_body]
fn create_program_address(seeds: &Vec<Vec<u8>>, program_id: &AccountKey) -> (r: Result<AccountKey, AddressError>)
    requires
        seeds_within_limits(seeds.deep_view()),
    ensures
        match program_address(seeds.deep_view(), program_id@) {
            Some(k) => r matches Ok(a) && a@ == k,
            None => r matches Err(AddressError::InvalidSeeds),
        },
{
    let slices: Vec<&[u8]> = seeds.iter().map(|s| s.as_slice()).collect();
    match Pubkey::create_program_address(&slices, &Pubkey::new_from_array(program_id.bytes)) {
        Ok(k) => Ok(AccountKey { bytes: k.to_bytes() }),
        Err(PubkeyError::MaxSeedLengthExceeded) => Err(AddressError::MaxSeedLengthExceeded),
        Err(PubkeyError::InvalidSeeds) => Err(AddressError::InvalidSeeds),
        Err(PubkeyError::IllegalOwner) => Err(AddressError::IllegalOwner),
    }
}

/// `Pubkey::try_find_program_address` of solana-program, on seeds that
/// leave room for a bump. Claimed, as its loop shows: it tries the bumps
/// from 255 down to 1, appending each as one more seed, and returns the
/// first address found with its bump, or `None` when none of them gives
/// one. The hash itself is not stated; on chain the same search is a
/// system call of the runtime.
#[verifier::external_body]
fn try_find_program_address(seeds: &Vec<Vec<u8>>, program_id: &AccountKey) -> (r: Option<(AccountKey, u8)>)
    requires
        seeds.deep_view().len() < MAX_SEEDS,
        forall|i: int| 0 <= i < seeds.deep_view().len() ==> #[trigger] seeds.deep_view()[i].len() <= MAX_SEED_LEN,
    ensures
        r matches Some((k, b)) ==> canonical_bump(seeds.deep_view(), program_id@, b, k@),
        r is None ==> forall|c: u8| 1 <= c ==> #[trigger] program_address(seeds.deep_view().push(seq![c]), program_id@) is None,
{
    let slices: Vec<&[u8]> = seeds.iter().map(|s| s.as_slice()).collect();
    Pubkey::try_find_program_address(&slices, &Pubkey::new_from_array(program_id.bytes))
        .map(|(k, b)| (AccountKey { bytes: k.to_bytes() }, b))
}

/// The eight little-endian bytes of `x`.
pub fn u64_le_bytes(x: u64) -> (r: Vec<u8>)
    ensures
        r@ == le_bytes(x as nat, 8),
{
    let mut out: Vec<u8> = Vec::new();
    let mut v: u64 = x;
    let mut i: usize = 0;
    while i < 8
        invariant
            0 <= i <= 8,
            out@.len() == i,
            out@ + le_bytes(v as nat, (8 - i) as nat) == le_bytes(x as nat, 8),
        decreases 8 - i,
    {
        let ghost rest = le_bytes((v / 256) as nat, (8 - i - 1) as nat);
        assert(le_bytes(v as nat, (8 - i) as nat) == seq![(v % 256) as u8] + rest);
        out.push((v % 256) as u8);
        assert(out@ + rest =~= (out@.drop_last() + seq![(v % 256) as u8]) + rest);
        assert((out@.drop_last() + seq![(v % 256) as u8]) + rest =~= out@.drop_last() + (seq![
            (v % 256) as u8,
        ] + rest));
        v = v / 256;
        i = i + 1;
    }
    assert(le_bytes(v as nat, 0) =~= Seq::<u8>::empty());
    assert(out@ + Seq::<u8>::empty() =~= out@);
    out
}

/// The seeds of the escrow of deal `deal_id` opened by `buyer`, before the
/// bump: the word `escrow`, the deal id in little-endian bytes and the
/// buyer's address.
pub fn escrow_base_seeds(deal_id: u64, buyer: &AccountKey) -> (r: Vec<Vec<u8>>)
    ensures
        r.deep_view() == escrow_base_seeds_spec(deal_id, buyer@),
{
    let tag: Vec<u8> = vec![101u8, 115u8, 99u8, 114u8, 111u8, 119u8];
    let id = u64_le_bytes(deal_id);
    let mut key: Vec<u8> = Vec::new();
    let mut i: usize = 0;
    while i < 32
        invariant
            0 <= i <= 32,
            key@ == buyer@.subrange(0, i as int),
        decreases 32 - i,
    {
        key.push(buyer.bytes[i]);
        i = i + 1;
        assert(key@ =~= buyer@.subrange(0, i as int));
    }
    assert(key@ =~= buyer@);
    assert(tag.deep_view() =~= escrow_tag());
    assert(id.deep_view() =~= le_bytes(deal_id as nat, 8));
    assert(key.deep_view() =~= buyer@);
    let ghost parts = seq![tag.deep_view(), id.deep_view(), key.deep_view()];
    let seeds: Vec<Vec<u8>> = vec![tag, id, key];
    assert(forall|j: int| 0 <= j < 3 ==> #[trigger] seeds@[j].deep_view() == parts[j]);
    assert(seeds.deep_view() =~= escrow_base_seeds_spec(deal_id, buyer@));
    seeds
}

/// The seeds of the escrow of deal `deal_id` opened by `buyer`: the word
/// `escrow`, the deal id in little-endian bytes, the buyer's address and
/// the bump. The escrow signs its transfers with them.
pub fn escrow_seeds(deal_id: u64, buyer: &AccountKey, bump: u8) -> (r: Vec<Vec<u8>>)
    ensures
        r.deep_view() == escrow_seeds_spec(deal_id, buyer@, bump),
{
    let mut seeds = escrow_base_seeds(deal_id, buyer);
    let ghost base = seeds.deep_view();
    let bump_seed: Vec<u8> = vec![bump];
    assert(bump_seed.deep_view() =~= seq![bump]);
    seeds.push(bump_seed);
    assert(seeds.deep_view() =~= base.push(seq![bump]));
    seeds
}

/// The escrow address of deal `deal_id` opened by `buyer` under the
/// program `program_id`, with its canonical bump, or `None` when no bump
/// from 255 down to 1 gives an address.
pub fn find_escrow_address(deal_id: u64, buyer: &AccountKey, program_id: &AccountKey) -> (r: Option<(AccountKey, u8)>)
    ensures
        r matches Some((k, b)) ==> canonical_bump(escrow_base_seeds_spec(deal_id, buyer@), program_id@, b, k@),
        r is None ==> forall|c: u8| 1 <= c ==> #[trigger] program_address(escrow_seeds_spec(deal_id, buyer@, c), program_id@) is None,
{
    let seeds = escrow_base_seeds(deal_id, buyer);
    let ghost s = seeds.deep_view();
    assert(s[0].len() == 6 && s[1].len() == 8 && s[2].len() == 32) by {
        lemma_le_bytes_len(deal_id as nat, 8);
    }
    let r = try_find_program_address(&seeds, program_id);
    assert(r is None ==> forall|c: u8| 1 <= c ==> #[trigger] program_address(escrow_seeds_spec(deal_id, buyer@, c), program_id@) is None) by {
        if r is None {
            assert forall|c: u8| 1 <= c implies #[trigger] program_address(escrow_seeds_spec(deal_id, buyer@, c), program_id@) is None by {
                assert(escrow_seeds_spec(deal_id, buyer@, c) == s.push(seq![c]));
            }
        }
    }
    r
}

/// The address of the escrow of deal `deal_id` opened by `buyer` under
/// the program `program_id`.
pub fn escrow_address(deal_id: u64, buyer: &AccountKey, bump: u8, program_id: &AccountKey) -> (r:
    Result<AccountKey, AddressError>)
    ensures
        match program_address(escrow_seeds_spec(deal_id, buyer@, bump), program_id@) {
            Some(k) => r matches Ok(a) && a@ == k,
            None => r matches Err(AddressError::InvalidSeeds),
        },
{
    let seeds = escrow_seeds(deal_id, buyer, bump);
    let ghost s = seeds.deep_view();
    assert(s[0].len() == 6 && s[1].len() == 8 && s[2].len() == 32 && s[3].len() == 1) by {
        lemma_le_bytes_len(deal_id as nat, 8);
    }
    assert(seeds_within_limits(s));
    create_program_address(&seeds, program_id)
}

/// `le_bytes(x, n)` has `n` bytes.
pub proof fn lemma_le_bytes_len(x: nat, n: nat)
    ensures
        le_bytes(x, n).len() == n,
    decreases n,
{
    if n > 0 {
        lemma_le_bytes_len(x / 256, (n - 1) as nat);
    }
}

/// Whether `key` is the escrow address of deal `deal_id` opened by `buyer`
/// with bump `bump` under the program `program_id`.
pub fn is_escrow_address(
    key: &AccountKey,
    deal_id: u64,
    buyer: &AccountKey,
    bump: u8,
    program_id: &AccountKey,
) -> (b: bool)
    ensures
        b == (program_address(escrow_seeds_spec(deal_id, buyer@, bump), program_id@) == Some(key@)),
{
    match escrow_address(deal_id, buyer, bump, program_id) {
        Ok(a) => a.same_as(key),
        Err(_) => false,
    }
}

} // verus!
