use vstd::prelude::*;

use anchor_lang::prelude::Pubkey;
use vstd::bytes::{spec_u64_to_le_bytes, u64_to_le_bytes};

use crate::resolver::Key;

verus! {

/// Most seeds an address may be derived from.
pub const MAX_SEEDS: usize = 16;

/// Longest seed, in bytes.
pub const MAX_SEED_LEN: usize = 32;

/// The program-derived address for `seeds` under `program_id`, when one
/// exists: a digest of the seeds and the program id that falls off the
/// ed25519 curve, so that no private key signs for it.
pub uninterp spec fn program_address(seeds: Seq<Seq<u8>>, program_id: Seq<u8>) -> Option<Seq<u8>>;

/// The seeds as byte sequences.
pub open spec fn seeds_view(seeds: Seq<Vec<u8>>) -> Seq<Seq<u8>> {
    seeds.map_values(|s: Vec<u8>| s@)
}

/// At most `MAX_SEEDS` seeds of at most `MAX_SEED_LEN` bytes each.
pub open spec fn seeds_within_limits(seeds: Seq<Seq<u8>>) -> bool {
    &&& seeds.len() <= MAX_SEEDS
    &&& forall|i: int| 0 <= i < seeds.len() ==> #[trigger] seeds[i].len() <= MAX_SEED_LEN
}

/// An optional address as an optional byte sequence.
pub open spec fn key_option_view(k: Option<Key>) -> Option<Seq<u8>> {
    match k {
        Some(key) => Some(key@),
        None => None,
    }
}

/// Relies on `Pubkey::create_program_address` of solana_program, as anchor_lang
/// re-exports it: it refuses seeds beyond the limits, and otherwise returns
/// the derived address or refuses seeds whose digest lies on the curve.
#[verifier::external_body]
fn create_program_address(seeds: &Vec<Vec<u8>>, program_id: &Key) -> (r: Option<Key>)
    ensures
        key_option_view(r) == program_address(seeds_view(seeds@), program_id@),
        !seeds_within_limits(seeds_view(seeds@)) ==> r is None,
{
    let slices: Vec<&[u8]> = seeds.iter().map(|s| s.as_slice()).collect();
    Pubkey::create_program_address(&slices, &Pubkey::new_from_array(*program_id))
        .ok()
        .map(|k| k.to_bytes())
}

/// The bytes of an address, as a vector.
pub fn key_bytes(k: &Key) -> (r: Vec<u8>)
    ensures
        r@ == k@,
{
    let mut r: Vec<u8> = Vec::new();
    let mut i: usize = 0;
    while i < 32
        invariant
            0 <= i <= 32,
            r@ == k@.take(i as int),
        decreases 32 - i,
    {
        r.push(k[i]);
        i = i + 1;
        assert(r@ =~= k@.take(i as int));
    }
    assert(k@.take(32) =~= k@);
    r
}

/// Seeds of a DAO's treasury authority: the DAO's address and its bump.
pub open spec fn treasury_seed_bytes(dao: Key, bump: u8) -> Seq<Seq<u8>> {
    seq![dao@, seq![bump]]
}

/// The first seed of every proposal vault's address: the bytes of
/// `proposal_vault`.
pub open spec fn vault_seed_prefix() -> Seq<u8> {
    seq![112u8, 114u8, 111u8, 112u8, 111u8, 115u8, 97u8, 108u8, 95u8, 118u8, 97u8, 117u8, 108u8, 116u8]
}

/// Seeds of a proposal vault's authority: the prefix, the proposal number in
/// little-endian order, and the bump.
pub open spec fn vault_seed_bytes(number: u64, bump: u8) -> Seq<Seq<u8>> {
    seq![vault_seed_prefix(), spec_u64_to_le_bytes(number), seq![bump]]
}

/// The seeds a DAO's treasury authority signs with.
pub fn treasury_seeds(dao: &Key, bump: u8) -> (r: Vec<Vec<u8>>)
    ensures
        seeds_view(r@) == treasury_seed_bytes(*dao, bump),
{
    let mut seeds: Vec<Vec<u8>> = Vec::new();
    seeds.push(key_bytes(dao));
    let mut bump_seed: Vec<u8> = Vec::new();
    bump_seed.push(bump);
    assert(bump_seed@ =~= seq![bump]);
    seeds.push(bump_seed);
    assert(seeds_view(seeds@) =~= treasury_seed_bytes(*dao, bump));
    seeds
}

/// The seeds a proposal vault's authority signs with.
pub fn vault_seeds(number: u64, bump: u8) -> (r: Vec<Vec<u8>>)
    ensures
        seeds_view(r@) == vault_seed_bytes(number, bump),
{
    let mut prefix: Vec<u8> = Vec::new();
    prefix.push(112u8);
    prefix.push(114u8);
    prefix.push(111u8);
    prefix.push(112u8);
    prefix.push(111u8);
    prefix.push(115u8);
    prefix.push(97u8);
    prefix.push(108u8);
    prefix.push(95u8);
    prefix.push(118u8);
    prefix.push(97u8);
    prefix.push(117u8);
    prefix.push(108u8);
    prefix.push(116u8);
    assert(prefix@ =~= vault_seed_prefix());
    let mut bump_seed: Vec<u8> = Vec::new();
    bump_seed.push(bump);
    assert(bump_seed@ =~= seq![bump]);
    let mut seeds: Vec<Vec<u8>> = Vec::new();
    seeds.push(prefix);
    seeds.push(u64_to_le_bytes(number));
    seeds.push(bump_seed);
    assert(seeds_view(seeds@) =~= vault_seed_bytes(number, bump));
    seeds
}

/// The treasury authority of a DAO: the address derived from the DAO's own
/// address and its bump seed, which signs for the DAO without a private key.
pub fn treasury_authority(dao: &Key, bump: u8, program_id: &Key) -> (r: Option<Key>)
    ensures
        key_option_view(r) == program_address(treasury_seed_bytes(*dao, bump), program_id@),
{
    let seeds = treasury_seeds(dao, bump);
    create_program_address(&seeds, program_id)
}

/// The authority of a proposal's vault, which signs the vault's payouts.
pub fn vault_authority(number: u64, bump: u8, program_id: &Key) -> (r: Option<Key>)
    ensures
        key_option_view(r) == program_address(vault_seed_bytes(number, bump), program_id@),
{
    let seeds = vault_seeds(number, bump);
    create_program_address(&seeds, program_id)
}

} // verus!
