//! The program's derived authority: the key-less identity that signs for the
//! escrow of a game, and the seeds with which the program asserts it.
use vstd::prelude::*;

verus! {

/// The address derived from `seeds` under `program_id`, with its bump, or
/// `None` where no bump gives an address off the curve.
pub uninterp spec fn program_address(seeds: Seq<Seq<u8>>, program_id: Seq<u8>) -> Option<(Seq<u8>, u8)>;

/// The fixed label that every escrow authority is derived from: "pool".
pub open spec fn pool_label() -> Seq<u8> {
    seq![112u8, 111u8, 111u8, 108u8]
}

/// The seeds that derive the authority of a game, before the bump.
pub open spec fn authority_base_seeds(game_id: [u8; 32]) -> Seq<Seq<u8>> {
    seq![pool_label(), game_id@]
}

/// The seeds with which the program signs for the authority of a game.
pub open spec fn authority_signer_seeds(game_id: [u8; 32], bump: u8) -> Seq<Seq<u8>> {
    seq![pool_label(), game_id@, seq![bump]]
}

/// The derived authority of one game: its address and the bump that makes it.
pub struct PoolAuthority {
    pub address: [u8; 32],
    pub bump: u8,
}

fn pool_label_bytes() -> (r: Vec<u8>)
    ensures
        r@ == pool_label(),
{
    let r: Vec<u8> = vec![112u8, 111u8, 111u8, 108u8];
    assert(r@ =~= pool_label());
    r
}

fn key_bytes(k: &[u8; 32]) -> (r: Vec<u8>)
    ensures
        r@ == k@,
{
    let mut r: Vec<u8> = Vec::new();
    let mut i: usize = 0;
    while i < 32
        invariant
            0 <= i <= 32,
            r@ == k@.subrange(0, i as int),
        decreases 32 - i,
    {
        r.push(k[i]);
        i = i + 1;
        assert(r@ =~= k@.subrange(0, i as int));
    }
    assert(k@.subrange(0, 32) =~= k@);
    r
}

/// Relies on Pubkey::try_find_program_address: it searches the bumps from
/// 255 down for the first that derives an address off the curve, and its
/// result depends on the seeds and the program id alone.
#[verifier::external_body]
fn try_find_program_address(seeds: &Vec<Vec<u8>>, program_id: &[u8; 32]) -> (r: Option<([u8; 32], u8)>)
    ensures
        match r {
            Some((address, bump)) => program_address(seeds.deep_view(), program_id@) == Some((address@, bump)),
            None => program_address(seeds.deep_view(), program_id@) is None,
        },
{
    let refs: Vec<&[u8]> = seeds.iter().map(|s| s.as_slice()).collect();
    let program = anchor_lang::solana_program::pubkey::Pubkey::new_from_array(*program_id);
    anchor_lang::solana_program::pubkey::Pubkey::try_find_program_address(&refs, &program)
        .map(|(address, bump)| (address.to_bytes(), bump))
}

/// Derives the authority that controls the escrow of `game_id` under the
/// program `program_id`.
pub fn find_pool_authority(game_id: &[u8; 32], program_id: &[u8; 32]) -> (r: Option<PoolAuthority>)
    ensures
        match r {
            Some(a) => program_address(authority_base_seeds(*game_id), program_id@) == Some((a.address@, a.bump)),
            None => program_address(authority_base_seeds(*game_id), program_id@) is None,
        },
{
    let mut seeds: Vec<Vec<u8>> = Vec::new();
    seeds.push(pool_label_bytes());
    seeds.push(key_bytes(game_id));
    assert(seeds@[0].deep_view() =~= seeds@[0]@);
    assert(seeds@[1].deep_view() =~= seeds@[1]@);
    assert(seeds.deep_view() =~= authority_base_seeds(*game_id));
    match try_find_program_address(&seeds, program_id) {
        Some((address, bump)) => Some(PoolAuthority { address, bump }),
        None => None,
    }
}

/// The seeds with which the program signs, as the authority of `game_id`
/// found with `bump`, for a transfer out of that game's escrow.
pub fn signer_seeds(game_id: &[u8; 32], bump: u8) -> (r: Vec<Vec<u8>>)
    ensures
        r.deep_view() == authority_signer_seeds(*game_id, bump),
{
    let mut r: Vec<Vec<u8>> = Vec::new();
    r.push(pool_label_bytes());
    r.push(key_bytes(game_id));
    let b: Vec<u8> = vec![bump];
    assert(b@ =~= seq![bump]);
    r.push(b);
    assert(r@[0].deep_view() =~= r@[0]@);
    assert(r@[1].deep_view() =~= r@[1]@);
    assert(r@[2].deep_view() =~= r@[2]@);
    assert(r.deep_view() =~= authority_signer_seeds(*game_id, bump));
    r
}

} // verus!
