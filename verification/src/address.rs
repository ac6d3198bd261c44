//! Deterministic addresses of a pool and of the accounts it controls.
//!
//! Every address is derived from a tag and the identities of the two assets,
//! under this program's own identity. The derivation itself is the ledger's:
//! the search for a program address that lies off the signature curve.

use crate::identity::Identity;
use anchor_lang::prelude::Pubkey;
use vstd::prelude::*;
use vstd::slice::slice_to_vec;
use vstd::string::StringSliceAdditionalSpecFns;

verus! {

/// The program address that the ledger derives from `seeds` under the
/// program `program_id`, with its bump seed; `None` where the ledger finds
/// none.
pub uninterp spec fn program_address(seeds: Seq<Seq<u8>>, program_id: Seq<u8>) -> Option<
    (Seq<u8>, u8),
>;

/// A derived address and its bump seed, as plain bytes.
pub open spec fn address_view(found: Option<(Identity, u8)>) -> Option<(Seq<u8>, u8)> {
    match found {
        Some((key, bump)) => Some((key@, bump)),
        None => None,
    }
}

/// The seeds of a derivation, each as plain bytes.
pub open spec fn seeds_view(seeds: Seq<Vec<u8>>) -> Seq<Seq<u8>> {
    seeds.map_values(|seed: Vec<u8>| seed@)
}

/// The bytes of this program's identity.
pub open spec fn program_id_bytes() -> Seq<u8> {
    seq![
        151u8, 52, 192, 161, 157, 76, 235, 15, 186, 140, 239, 50, 171, 252, 246, 85,
        243, 243, 242, 178, 147, 205, 128, 255, 40, 76, 212, 36, 172, 32, 109, 61,
    ]
}

/// The identity of this program, under which every address is derived.
pub fn program_id() -> (id: Identity)
    ensures
        id@ == program_id_bytes(),
{
    let id = Identity {
        bytes: [
            151, 52, 192, 161, 157, 76, 235, 15, 186, 140, 239, 50, 171, 252, 246, 85,
            243, 243, 242, 178, 147, 205, 128, 255, 40, 76, 212, 36, 172, 32, 109, 61,
        ],
    };
    assert(id@ =~= program_id_bytes());
    id
}

/// Calls `Pubkey::try_find_program_address` of `solana_program`, which
/// `anchor_lang` hands on: the search, from bump seed 255 downwards, for the
/// first hash of the seeds, the bump seed and the program identity that is
/// no point of the signature curve. Believed, not proved: that what the
/// call returns depends on the seeds and the program identity alone. The
/// contract gives that result a name and says nothing of which address it
/// is, nor that there is one.
#[verifier::external_body]
fn try_find_program_address(seeds: &Vec<Vec<u8>>, program_id: &Identity) -> (found: Option<
    (Identity, u8),
>)
    ensures
        address_view(found) == program_address(seeds_view(seeds@), program_id@),
{
    let parts: Vec<&[u8]> = seeds.iter().map(|seed| seed.as_slice()).collect();
    let program = Pubkey::new_from_array(program_id.bytes);
    match Pubkey::try_find_program_address(&parts, &program) {
        Some((key, bump)) => Some((Identity { bytes: key.to_bytes() }, bump)),
        None => None,
    }
}

/// Seeds of an address that belongs to an ordered pair of assets.
pub open spec fn pair_seeds(tag: &str, asset_a: Seq<u8>, asset_b: Seq<u8>) -> Seq<Seq<u8>> {
    seq![tag.spec_bytes(), asset_a, asset_b]
}

/// Seeds of an address that belongs to a single asset.
pub open spec fn single_seeds(tag: &str, asset: Seq<u8>) -> Seq<Seq<u8>> {
    seq![tag.spec_bytes(), asset]
}

/// The address of the pool for the ordered pair `(asset_a, asset_b)`.
pub open spec fn pool_address(asset_a: Seq<u8>, asset_b: Seq<u8>) -> Option<(Seq<u8>, u8)> {
    program_address(pair_seeds("pool", asset_a, asset_b), program_id_bytes())
}

/// The address of the share token of the pool for `(asset_a, asset_b)`.
pub open spec fn share_token_address(asset_a: Seq<u8>, asset_b: Seq<u8>) -> Option<
    (Seq<u8>, u8),
> {
    program_address(pair_seeds("lp-token-mint", asset_a, asset_b), program_id_bytes())
}

/// The address of the vault that holds the pool's reserve of its first asset.
pub open spec fn vault_a_address(asset_a: Seq<u8>) -> Option<(Seq<u8>, u8)> {
    program_address(single_seeds("token-vault-a", asset_a), program_id_bytes())
}

/// The address of the vault that holds the pool's reserve of its second asset.
pub open spec fn vault_b_address(asset_b: Seq<u8>) -> Option<(Seq<u8>, u8)> {
    program_address(single_seeds("token-vault-b", asset_b), program_id_bytes())
}

/// The seeds by which the pool for `(asset_a, asset_b)` signs for its
/// vaults and its share token: the seeds of its address and the bump seed.
pub open spec fn signer_seeds(asset_a: Seq<u8>, asset_b: Seq<u8>, bump: u8) -> Seq<Seq<u8>> {
    seq!["pool".spec_bytes(), asset_a, asset_b, seq![bump]]
}

/// Whether `found` is a derived address and `key` is that address.
pub open spec fn derives(found: Option<(Seq<u8>, u8)>, key: Seq<u8>) -> bool {
    match found {
        Some((address, _)) => address == key,
        None => false,
    }
}

fn pair_address(tag: &str, asset_a: &Identity, asset_b: &Identity) -> (found: Option<
    (Identity, u8),
>)
    ensures
        address_view(found) == program_address(
            pair_seeds(tag, asset_a@, asset_b@),
            program_id_bytes(),
        ),
{
    let mut seeds: Vec<Vec<u8>> = Vec::new();
    seeds.push(slice_to_vec(tag.as_bytes()));
    seeds.push(asset_a.to_vec());
    seeds.push(asset_b.to_vec());
    assert(seeds_view(seeds@) =~= pair_seeds(tag, asset_a@, asset_b@));
    let program = program_id();
    try_find_program_address(&seeds, &program)
}

fn single_address(tag: &str, asset: &Identity) -> (found: Option<(Identity, u8)>)
    ensures
        address_view(found) == program_address(single_seeds(tag, asset@), program_id_bytes()),
{
    let mut seeds: Vec<Vec<u8>> = Vec::new();
    seeds.push(slice_to_vec(tag.as_bytes()));
    seeds.push(asset.to_vec());
    assert(seeds_view(seeds@) =~= single_seeds(tag, asset@));
    let program = program_id();
    try_find_program_address(&seeds, &program)
}

/// Derives the address of the pool for the ordered pair of assets.
pub fn derive_pool_address(asset_a: &Identity, asset_b: &Identity) -> (found: Option<
    (Identity, u8),
>)
    ensures
        address_view(found) == pool_address(asset_a@, asset_b@),
{
    pair_address("pool", asset_a, asset_b)
}

/// Derives the address of the share token for the ordered pair of assets.
pub fn derive_share_token_address(asset_a: &Identity, asset_b: &Identity) -> (found: Option<
    (Identity, u8),
>)
    ensures
        address_view(found) == share_token_address(asset_a@, asset_b@),
{
    pair_address("lp-token-mint", asset_a, asset_b)
}

/// Derives the address of the vault of the pool's first asset.
pub fn derive_vault_a_address(asset_a: &Identity) -> (found: Option<(Identity, u8)>)
    ensures
        address_view(found) == vault_a_address(asset_a@),
{
    single_address("token-vault-a", asset_a)
}

/// Derives the address of the vault of the pool's second asset.
pub fn derive_vault_b_address(asset_b: &Identity) -> (found: Option<(Identity, u8)>)
    ensures
        address_view(found) == vault_b_address(asset_b@),
{
    single_address("token-vault-b", asset_b)
}

/// The seeds by which the pool signs, for the ledger.
pub fn pool_signer_seeds(asset_a: &Identity, asset_b: &Identity, bump: u8) -> (seeds: Vec<Vec<u8>>)
    ensures
        seeds_view(seeds@) == signer_seeds(asset_a@, asset_b@, bump),
{
    let mut last: Vec<u8> = Vec::new();
    last.push(bump);
    let mut seeds: Vec<Vec<u8>> = Vec::new();
    seeds.push(slice_to_vec("pool".as_bytes()));
    seeds.push(asset_a.to_vec());
    seeds.push(asset_b.to_vec());
    seeds.push(last);
    assert(seeds_view(seeds@) =~= signer_seeds(asset_a@, asset_b@, bump));
    seeds
}

/// Tests whether `key` is the address that a derivation found.
pub fn is_derived(found: &Option<(Identity, u8)>, key: &Identity) -> (same: bool)
    ensures
        same == derives(address_view(*found), key@),
{
    match found {
        Some((address, _)) => address.same_as(key),
        None => false,
    }
}

} // verus!
